use vstd::prelude::*;
use crate::commands::common::CommandError;
use crate::filter::Filter;
use crate::github::models::RemoteRepo;
use crate::github::rest::ApiRequest;
use crate::github::rest::is_set_topics_request;
use crate::github::rest::set_topics;
use crate::local::clone_paths;

verus! {

/// Arguments of the topic-set subcommand: replace the topics of every
/// repository of the organisation whose name matches the filter.
#[derive(Debug)]
pub struct TopicSetArgs {
    pub organisation: Option<String>,
    pub regex: Option<Filter>,
    pub topics: Vec<String>,
}

/// The organisation a command targets: the explicit argument when given,
/// else the configured default, else the configuration error.
pub fn organisation(arg: Option<String>, configured: Option<String>) -> (r: Result<
    String,
    CommandError,
>)
    ensures
        arg matches Some(a) ==> r == Ok::<String, CommandError>(a),
        arg is None ==> (configured matches Some(c) ==> r == Ok::<String, CommandError>(c)),
        arg is None && configured is None ==> r == Err::<String, CommandError>(
            CommandError::MissingConfig,
        ),
{
    match arg {
        Option::Some(a) => Ok(a),
        Option::None => match configured {
            Option::Some(c) => Ok(c),
            Option::None => Err(CommandError::MissingConfig),
        },
    }
}

impl TopicSetArgs {
    /// Plans one set-topics request per filtered repository, in listing
    /// order, each carrying this command's whole topic list.
    pub fn requests(&self, repos: &Vec<RemoteRepo>) -> (rs: Vec<ApiRequest>)
        ensures
            rs@.len() == repos@.len(),
            forall|i: int|
                0 <= i < repos@.len() ==> is_set_topics_request(
                    repos@[i].owner@,
                    repos@[i].name@,
                    self.topics@,
                    #[trigger] rs@[i],
                ),
    {
        let mut rs: Vec<ApiRequest> = Vec::new();
        let mut i: usize = 0;
        while i < repos.len()
            invariant
                i <= repos@.len(),
                rs@.len() == i,
                forall|k: int|
                    0 <= k < i ==> is_set_topics_request(
                        repos@[k].owner@,
                        repos@[k].name@,
                        self.topics@,
                        #[trigger] rs@[k],
                    ),
            decreases repos@.len() - i,
        {
            rs.push(set_topics(&repos[i], clone_paths(&self.topics)));
            i += 1;
        }
        rs
    }
}

} // verus!

use vstd::prelude::*;
use crate::commands::commit::CommitArgs;
use crate::commands::create::CreateArgs;
use crate::commands::fetch::FetchArgs;
use crate::commands::topic_set::TopicSetArgs;

verus! {

/// The subcommands whose engine this library holds. Argument parsing lives
/// outside; it hands in one of these values.
#[derive(Debug)]
pub enum Commands {
    Commit(CommitArgs),
    Create(CreateArgs),
    Fetch(FetchArgs),
    TopicSet(TopicSetArgs),
}

/// The parsed command line: the one subcommand to run.
#[derive(Debug)]
pub struct Args {
    pub command: Commands,
}

} // verus!

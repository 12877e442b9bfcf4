use vstd::prelude::*;
use crate::github::rest::ApiRequest;
use crate::github::rest::HttpMethod;
use crate::github::rest::AcceptHeader;
use crate::github::rest::RequestBody;
use crate::github::rest::create_team;
use crate::local::clone_paths;

verus! {

/// Arguments for creating one team in an organization.
#[derive(Debug)]
pub struct CreateTeamArgs {
    pub organisation: String,
    pub team: String,
    pub description: String,
    pub maintainers: Vec<String>,
    pub secret: bool,
}

/// The create subcommand's remote-only operations.
#[derive(Debug)]
pub enum CreateArgs {
    Team(CreateTeamArgs),
}

impl CreateArgs {
    /// Plans the remote mutation the subcommand performs; the transport
    /// sends it and its response is mapped like every other endpoint's.
    pub fn do_create(&self) -> (r: ApiRequest)
        ensures
            self matches CreateArgs::Team(args) ==> {
                &&& r.method == HttpMethod::Post
                &&& r.accept == AcceptHeader::V3Json
                &&& r.url@ == "https://api.github.com/orgs/"@ + args.organisation@ + "/teams"@
                &&& r.body matches RequestBody::Team(b) && {
                    &&& b.name@ == args.team@
                    &&& b.description@ == args.description@
                    &&& b.maintainers@ == args.maintainers@
                    &&& b.privacy@ == if args.secret {
                        "secret"@
                    } else {
                        "closed"@
                    }
                }
            },
    {
        match self {
            CreateArgs::Team(args) => create_team(
                args.organisation.as_str(),
                args.team.as_str(),
                args.description.as_str(),
                clone_paths(&args.maintainers),
                args.secret,
            ),
        }
    }
}

} // verus!

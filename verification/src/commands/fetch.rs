use vstd::prelude::*;
use crate::batch::FailReason;
use crate::batch::OperationOutcome;
use crate::commands::common::User;
use crate::filter::Filter;
use crate::repo::DirEntry;
use crate::repo::RepositoryTarget;
use crate::repo::enumerate;
use crate::repo::kept_names;
use crate::repo::lex_leq;
use crate::repo::target_names;

verus! {

use vstd::relations::sorted_by;
use vstd::string::StringExecFns;

/// The git transport credential: the user's name, with the token used as
/// the password.
#[derive(Debug)]
pub struct GitCredential {
    pub username: String,
    pub password: String,
}

impl GitCredential {
    /// Builds the transport credential from the stored identity, once per
    /// batch; the one value is then reused for every target.
    pub fn from(user: &User) -> (c: GitCredential)
        ensures
            c.username@ == user.username@,
            c.password@ == user.token@,
    {
        GitCredential { username: user.username.clone(), password: user.token.clone() }
    }
}

/// Arguments of the fetch subcommand: fetch every local repository of the
/// organisation whose name matches the filter.
#[derive(Debug)]
pub struct FetchArgs {
    pub organisation: String,
    pub regex: Option<Filter>,
}

/// Everything a fetch batch needs before its network round-trips: the one
/// resolved credential and the ordered targets.
#[derive(Debug)]
pub struct FetchPlan {
    pub credential: GitCredential,
    pub targets: Vec<RepositoryTarget>,
}

impl FetchArgs {
    /// Prepares the fetch batch: resolves the credential once and selects
    /// the matching git directories, ordered by name. The transport then
    /// fetches each target in this order with this one credential.
    pub fn run(&self, user: &User, entries: Vec<DirEntry>) -> (plan: FetchPlan)
        ensures
            plan.credential.username@ == user.username@,
            plan.credential.password@ == user.token@,
            sorted_by(target_names(plan.targets@), lex_leq()),
            target_names(plan.targets@).to_multiset() == kept_names(entries@, self.regex)
                .to_multiset(),
    {
        let credential = GitCredential::from(user);
        let targets = enumerate(entries, &self.regex);
        FetchPlan { credential, targets }
    }
}

/// The batch outcome of one target's fetch: transport failures are that
/// target's failure alone, never the batch's.
pub fn fetch_outcome(succeeded: bool) -> (o: OperationOutcome)
    ensures
        o == if succeeded {
            OperationOutcome::Success
        } else {
            OperationOutcome::Failed(FailReason::Transport)
        },
{
    if succeeded {
        OperationOutcome::Success
    } else {
        OperationOutcome::Failed(FailReason::Transport)
    }
}

/// The progress line printed before one target's fetch.
pub fn fetch_line(name: &str) -> (line: String)
    ensures
        line@ == "Fetching for "@ + name@,
{
    let mut line = "Fetching for ".to_owned();
    line.append(name);
    line
}

} // verus!

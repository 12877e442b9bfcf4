use vstd::prelude::*;
use crate::filter::Filter;
use crate::filter::opt_matches;
use crate::github::models::RemoteApiError;
use crate::github::models::RemoteRepo;

verus! {

/// The stored user identity: account name and its bearer token.
#[derive(Debug)]
pub struct User {
    pub username: String,
    pub token: String,
}

/// Error resolving a command's shared prerequisites. Any of these aborts
/// the whole command before any target is touched.
#[derive(Clone, Copy, Debug, PartialEq, Eq, Structural)]
pub enum CommandError {
    /// No stored identity; init must be run with a valid token first.
    MissingConfig,
    /// The token was rejected; init must be re-run with a valid token.
    InvalidToken,
    /// The organization query returned no repositories.
    NoRepositories,
    /// Any other failing remote response.
    Remote(RemoteApiError),
}

/// Yields the stored identity, or the configuration error when none is
/// stored.
pub fn user(stored: Option<User>) -> (r: Result<User, CommandError>)
    ensures
        r is Ok <==> stored is Some,
        stored matches Some(u) ==> r == Ok::<User, CommandError>(u),
        stored is None ==> r == Err::<User, CommandError>(CommandError::MissingConfig),
{
    match stored {
        Option::Some(u) => Ok(u),
        Option::None => Err(CommandError::MissingConfig),
    }
}

/// Yields the stored token, or the configuration error when none is stored.
pub fn user_token(stored: Option<String>) -> (r: Result<String, CommandError>)
    ensures
        r is Ok <==> stored is Some,
        stored matches Some(t) ==> r == Ok::<String, CommandError>(t),
        stored is None ==> r == Err::<String, CommandError>(CommandError::MissingConfig),
{
    match stored {
        Option::Some(t) => Ok(t),
        Option::None => Err(CommandError::MissingConfig),
    }
}

/// What the organization listing owes the command: its records when there
/// are any; an empty result or a reported absence of repositories is the
/// no-repositories error, a rejected token the invalid-token error, and any
/// other remote error passes through.
pub open spec fn spec_remote_repos(
    listing: Result<Vec<RemoteRepo>, RemoteApiError>,
) -> Result<Vec<RemoteRepo>, CommandError> {
    match listing {
        Ok(v) => if v@.len() == 0 {
            Err(CommandError::NoRepositories)
        } else {
            Ok(v)
        },
        Err(RemoteApiError::Unauthorized) => Err(CommandError::InvalidToken),
        Err(RemoteApiError::NoReposFound) => Err(CommandError::NoRepositories),
        Err(e) => Err(CommandError::Remote(e)),
    }
}

/// Screens the outcome of the organization repository listing for the rest
/// of a command.
pub fn remote_repos(listing: Result<Vec<RemoteRepo>, RemoteApiError>) -> (r: Result<
    Vec<RemoteRepo>,
    CommandError,
>)
    ensures
        r == spec_remote_repos(listing),
{
    match listing {
        Ok(v) => if v.len() == 0 {
            Err(CommandError::NoRepositories)
        } else {
            Ok(v)
        },
        Err(RemoteApiError::Unauthorized) => Err(CommandError::InvalidToken),
        Err(RemoteApiError::NoReposFound) => Err(CommandError::NoRepositories),
        Err(e) => Err(CommandError::Remote(e)),
    }
}

impl RemoteRepo {
    /// Keeps the records whose name the filter accepts; an absent filter
    /// keeps all of them, in their listed order.
    pub fn filter_with_option(repos: Vec<RemoteRepo>, regex: &Option<Filter>) -> (r: Vec<
        RemoteRepo,
    >)
        ensures
            r@ == repos@.filter(|rr: RemoteRepo| opt_matches(*regex, rr.name@)),
    {
        broadcast use vstd::seq_lib::group_seq_lib_default;

        let ghost orig = repos@;
        let mut remaining = repos;
        let mut out: Vec<RemoteRepo> = Vec::new();
        let ghost mut processed: int = 0;
        while remaining.len() > 0
            invariant
                0 <= processed <= orig.len(),
                remaining@ =~= orig.skip(processed),
                out@ == orig.take(processed).filter(
                    |rr: RemoteRepo| opt_matches(*regex, rr.name@),
                ),
            decreases remaining@.len(),
        {
            let rr = remaining.remove(0);
            assert(rr == orig[processed]);
            let keep = match regex {
                Option::None => true,
                Option::Some(f) => f.matches(rr.name.as_str()),
            };
            let ghost pre = orig.take(processed);
            let ghost out_pre = out@;
            if keep {
                out.push(rr);
            }
            proof {
                assert(orig.take(processed + 1) =~= pre.push(orig[processed]));
                pre.lemma_filter_push(orig[processed], |x: RemoteRepo| opt_matches(*regex, x.name@));
                if keep {
                    assert(out@ =~= pre.filter(|x: RemoteRepo| opt_matches(*regex, x.name@)).push(
                        orig[processed],
                    ));
                }
                processed = processed + 1;
                assert(remaining@ =~= orig.skip(processed));
            }
        }
        assert(orig.take(processed) =~= orig);
        out
    }
}

/// Queries the organization's repositories and keeps those the filter
/// accepts: the listing errors of `remote_repos` abort the command; an
/// accepted listing is filtered, a result that may legitimately be empty.
pub fn query_and_filter_repositories(
    listing: Result<Vec<RemoteRepo>, RemoteApiError>,
    regex: &Option<Filter>,
) -> (r: Result<Vec<RemoteRepo>, CommandError>)
    ensures
        r is Ok <==> spec_remote_repos(listing) is Ok,
        spec_remote_repos(listing) matches Err(e) ==> r == Err::<Vec<RemoteRepo>, CommandError>(e),
        spec_remote_repos(listing) matches Ok(v) ==> r matches Ok(w) && w@ == v@.filter(
            |rr: RemoteRepo| opt_matches(*regex, rr.name@),
        ),
{
    match remote_repos(listing) {
        Err(e) => Err(e),
        Ok(v) => Ok(RemoteRepo::filter_with_option(v, regex)),
    }
}

} // verus!

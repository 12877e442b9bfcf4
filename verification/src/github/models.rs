use vstd::prelude::*;

verus! {

/// Typed outcome of a GitHub REST call, matched exhaustively by callers
/// instead of inspecting a dynamic error value.
#[derive(Clone, Copy, Debug, PartialEq, Eq, Structural)]
pub enum RemoteApiError {
    /// The token was rejected (HTTP 401).
    Unauthorized,
    /// Any other non-2xx response, carrying its status code.
    Unsuccessful(u16),
    /// An organization query returned no repositories; raised by the caller
    /// of the listing endpoint, never by the HTTP layer itself.
    NoReposFound,
    /// A 2xx response whose body did not have the expected shape.
    Decode,
}

/// Immutable snapshot of one remote repository record, fetched from the
/// GitHub API at batch start.
#[derive(Debug)]
pub struct RemoteRepo {
    pub owner: String,
    pub name: String,
    pub default_branch: String,
}

} // verus!

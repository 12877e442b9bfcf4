use vstd::prelude::*;
use crate::github::models::RemoteApiError;
use crate::github::models::RemoteRepo;

verus! {

use vstd::string::StringExecFns;

/// The uniform response mapping every endpoint applies: 401 is an
/// authorization failure, any other non-2xx status is reported with its
/// code, and a 2xx status is success.
pub open spec fn spec_status_outcome(status: u16) -> Result<(), RemoteApiError> {
    if status == 401 {
        Err(RemoteApiError::Unauthorized)
    } else if status < 200 || status >= 300 {
        Err(RemoteApiError::Unsuccessful(status))
    } else {
        Ok(())
    }
}

/// Maps an HTTP status code to the shared success/error outcome.
pub fn status_outcome(status: u16) -> (r: Result<(), RemoteApiError>)
    ensures
        r == spec_status_outcome(status),
{
    if status == 401 {
        Err(RemoteApiError::Unauthorized)
    } else if status < 200 || status >= 300 {
        Err(RemoteApiError::Unsuccessful(status))
    } else {
        Ok(())
    }
}

/// Response mapping is uniform across every endpoint: 401 always denotes a
/// rejected token, any other non-2xx response its own status code, and only
/// a 2xx response is ever accepted — no body shape is consulted before the
/// status is.
pub proof fn lemma_response_mapping_uniform(status: u16)
    ensures
        status == 401 ==> spec_status_outcome(status) == Err::<(), RemoteApiError>(
            RemoteApiError::Unauthorized,
        ),
        status != 401 && (status < 200 || status >= 300) ==> spec_status_outcome(status)
            == Err::<(), RemoteApiError>(RemoteApiError::Unsuccessful(status)),
        200 <= status < 300 ==> spec_status_outcome(status) == Ok::<(), RemoteApiError>(()),
{
}

/// HTTP method of one planned request.
#[derive(Clone, Copy, Debug, PartialEq, Eq, Structural)]
pub enum HttpMethod {
    Get,
    Patch,
    Put,
    Post,
}

/// The accept header a request must carry; branch protection requires a
/// preview media type, every other endpoint the stable v3 one.
#[derive(Clone, Copy, Debug, PartialEq, Eq, Structural)]
pub enum AcceptHeader {
    V3Json,
    LukeCagePreview,
}

impl AcceptHeader {
    /// The header value to send.
    pub fn value(&self) -> (s: &'static str)
        ensures
            *self == AcceptHeader::V3Json ==> s@ == "application/vnd.github.v3+json"@,
            *self == AcceptHeader::LukeCagePreview ==> s@
                == "application/vnd.github.luke-cage-preview+json"@,
    {
        match self {
            AcceptHeader::V3Json => "application/vnd.github.v3+json",
            AcceptHeader::LukeCagePreview => "application/vnd.github.luke-cage-preview+json",
        }
    }
}

/// Body of the set-default-branch request.
#[derive(Debug)]
pub struct DefaultBranchBody {
    pub default_branch: String,
}

/// Required status checks of a protection body.
#[derive(Debug)]
pub struct RequiredStatusCheckBody {
    pub strict: bool,
    pub context: Vec<String>,
}

/// Required reviews of a protection body.
#[derive(Debug)]
pub struct RequiredPullRequestReviewsBody {
    pub dismiss_stale_reviews: bool,
    pub require_code_owner_reviews: bool,
    pub required_approving_review_count: i32,
}

/// Push restrictions of a protection body.
#[derive(Debug)]
pub struct RestrictionsBody {
    pub users: Vec<String>,
    pub teams: Vec<String>,
    pub apps: Vec<String>,
}

/// Body of the branch-protection request.
#[derive(Debug)]
pub struct ProtectedBranchBody {
    pub required_status_checks: Option<RequiredStatusCheckBody>,
    pub enforce_admins: bool,
    pub required_pull_request_reviews: Option<RequiredPullRequestReviewsBody>,
    pub restrictions: Option<RestrictionsBody>,
    pub required_linear_history: bool,
    pub allow_force_pushes: bool,
    pub allow_deletions: bool,
}

/// Body of the create-team request.
#[derive(Debug)]
pub struct CreateTeamBody {
    pub name: String,
    pub description: String,
    pub maintainers: Vec<String>,
    pub privacy: String,
}

/// Body of the set-topics request.
#[derive(Debug)]
pub struct TopicsBody {
    pub names: Vec<String>,
}

/// The typed body of one planned request.
#[derive(Debug)]
pub enum RequestBody {
    Empty,
    DefaultBranch(DefaultBranchBody),
    Protection(ProtectedBranchBody),
    Team(CreateTeamBody),
    Topics(TopicsBody),
}

/// One fully planned REST request: everything the transport needs besides
/// the bearer token.
#[derive(Debug)]
pub struct ApiRequest {
    pub method: HttpMethod,
    pub url: String,
    pub accept: AcceptHeader,
    pub body: RequestBody,
}

/// Successful body of the create-team endpoint.
#[derive(Debug)]
pub struct CreateTeamResponse {
    pub id: i32,
    pub url: String,
}

/// PATCH /repos/{owner}/{repo}, setting the default branch.
pub fn set_default_branch(repo: &RemoteRepo, branch: &str) -> (r: ApiRequest)
    ensures
        r.method == HttpMethod::Patch,
        r.accept == AcceptHeader::V3Json,
        r.url@ == "https://api.github.com/repos/"@ + repo.owner@ + "/"@ + repo.name@,
        r.body matches RequestBody::DefaultBranch(b) && b.default_branch@ == branch@,
{
    let mut url = "https://api.github.com/repos/".to_owned();
    url.append(repo.owner.as_str());
    url.append("/");
    url.append(repo.name.as_str());
    ApiRequest {
        method: HttpMethod::Patch,
        url,
        accept: AcceptHeader::V3Json,
        body: RequestBody::DefaultBranch(DefaultBranchBody { default_branch: branch.to_owned() }),
    }
}

/// What the planned branch-protection body pins down: no force pushes, no
/// deletions, linear history, enforced for admins too, and no further
/// checks, reviews or restrictions.
pub open spec fn is_protection_body(b: ProtectedBranchBody) -> bool {
    &&& b.required_status_checks is None
    &&& b.enforce_admins == true
    &&& b.required_pull_request_reviews is None
    &&& b.restrictions is None
    &&& b.required_linear_history == true
    &&& b.allow_force_pushes == false
    &&& b.allow_deletions == false
}

/// PUT /repos/{owner}/{repo}/branches/{branch}/protection, with the preview
/// accept header the endpoint requires.
pub fn set_protected_branch(repo: &RemoteRepo, branch: &str) -> (r: ApiRequest)
    ensures
        r.method == HttpMethod::Put,
        r.accept == AcceptHeader::LukeCagePreview,
        r.url@ == "https://api.github.com/repos/"@ + repo.owner@ + "/"@ + repo.name@
            + "/branches/"@ + branch@ + "/protection"@,
        r.body matches RequestBody::Protection(b) && is_protection_body(b),
{
    let mut url = "https://api.github.com/repos/".to_owned();
    url.append(repo.owner.as_str());
    url.append("/");
    url.append(repo.name.as_str());
    url.append("/branches/");
    url.append(branch);
    url.append("/protection");
    ApiRequest {
        method: HttpMethod::Put,
        url,
        accept: AcceptHeader::LukeCagePreview,
        body: RequestBody::Protection(
            ProtectedBranchBody {
                required_status_checks: Option::None,
                enforce_admins: true,
                required_pull_request_reviews: Option::None,
                restrictions: Option::None,
                required_linear_history: true,
                allow_force_pushes: false,
                allow_deletions: false,
            },
        ),
    }
}

/// POST /orgs/{org}/teams, creating a team with the given members and
/// privacy: "secret" when asked for, else "closed".
pub fn create_team(
    org: &str,
    team: &str,
    description: &str,
    maintainers: Vec<String>,
    is_secret: bool,
) -> (r: ApiRequest)
    ensures
        r.method == HttpMethod::Post,
        r.accept == AcceptHeader::V3Json,
        r.url@ == "https://api.github.com/orgs/"@ + org@ + "/teams"@,
        r.body matches RequestBody::Team(b) && {
            &&& b.name@ == team@
            &&& b.description@ == description@
            &&& b.maintainers@ == maintainers@
            &&& b.privacy@ == if is_secret {
                "secret"@
            } else {
                "closed"@
            }
        },
{
    let mut url = "https://api.github.com/orgs/".to_owned();
    url.append(org);
    url.append("/teams");
    let privacy = if is_secret {
        "secret".to_owned()
    } else {
        "closed".to_owned()
    };
    ApiRequest {
        method: HttpMethod::Post,
        url,
        accept: AcceptHeader::V3Json,
        body: RequestBody::Team(
            CreateTeamBody {
                name: team.to_owned(),
                description: description.to_owned(),
                maintainers,
                privacy,
            },
        ),
    }
}

/// What the planned set-topics request pins down.
pub open spec fn is_set_topics_request(
    owner: Seq<char>,
    name: Seq<char>,
    topics: Seq<String>,
    r: ApiRequest,
) -> bool {
    &&& r.method == HttpMethod::Put
    &&& r.accept == AcceptHeader::V3Json
    &&& r.url@ == "https://api.github.com/repos/"@ + owner + "/"@ + name + "/topics"@
    &&& r.body matches RequestBody::Topics(b) && b.names@ == topics
}

/// PUT /repos/{owner}/{repo}/topics, replacing the topic list.
pub fn set_topics(repo: &RemoteRepo, topics: Vec<String>) -> (r: ApiRequest)
    ensures
        is_set_topics_request(repo.owner@, repo.name@, topics@, r),
{
    let mut url = "https://api.github.com/repos/".to_owned();
    url.append(repo.owner.as_str());
    url.append("/");
    url.append(repo.name.as_str());
    url.append("/topics");
    ApiRequest {
        method: HttpMethod::Put,
        url,
        accept: AcceptHeader::V3Json,
        body: RequestBody::Topics(TopicsBody { names: topics }),
    }
}

/// GET /orgs/{org}/repos, listing the organization's repositories.
pub fn list_org_repos(org: &str) -> (r: ApiRequest)
    ensures
        r.method == HttpMethod::Get,
        r.accept == AcceptHeader::V3Json,
        r.url@ == "https://api.github.com/orgs/"@ + org@ + "/repos"@,
        r.body is Empty,
{
    let mut url = "https://api.github.com/orgs/".to_owned();
    url.append(org);
    url.append("/repos");
    ApiRequest { method: HttpMethod::Get, url, accept: AcceptHeader::V3Json, body: RequestBody::Empty }
}

/// The outcome a 2xx-gated endpoint with a decoded body owes: the uniform
/// status mapping first, then the decoded value, a missing or malformed
/// body being a decode failure — never a panic.
pub open spec fn spec_decoded_outcome<T>(status: u16, body: Option<T>) -> Result<T, RemoteApiError> {
    match spec_status_outcome(status) {
        Err(e) => Err(e),
        Ok(()) => match body {
            Option::None => Err(RemoteApiError::Decode),
            Option::Some(b) => Ok(b),
        },
    }
}

/// Maps the create-team response: status first, then the decoded body.
pub fn create_team_response(status: u16, body: Option<CreateTeamResponse>) -> (r: Result<
    CreateTeamResponse,
    RemoteApiError,
>)
    ensures
        r == spec_decoded_outcome(status, body),
{
    match status_outcome(status) {
        Err(e) => Err(e),
        Ok(()) => match body {
            Option::None => Err(RemoteApiError::Decode),
            Option::Some(b) => Ok(b),
        },
    }
}

/// Maps the set-topics response: status first, then the decoded topic list.
pub fn set_topics_response(status: u16, body: Option<Vec<String>>) -> (r: Result<
    Vec<String>,
    RemoteApiError,
>)
    ensures
        r == spec_decoded_outcome(status, body),
{
    match status_outcome(status) {
        Err(e) => Err(e),
        Ok(()) => match body {
            Option::None => Err(RemoteApiError::Decode),
            Option::Some(b) => Ok(b),
        },
    }
}

/// Maps the repository-listing response: status first, then the decoded
/// records. An empty list is a successful response here; the caller decides
/// what an empty result means.
pub fn list_org_repos_response(status: u16, body: Option<Vec<RemoteRepo>>) -> (r: Result<
    Vec<RemoteRepo>,
    RemoteApiError,
>)
    ensures
        r == spec_decoded_outcome(status, body),
{
    match status_outcome(status) {
        Err(e) => Err(e),
        Ok(()) => match body {
            Option::None => Err(RemoteApiError::Decode),
            Option::Some(b) => Ok(b),
        },
    }
}

} // verus!

use dadmin::commands::common::CommandError;
use dadmin::commands::common::query_and_filter_repositories;
use dadmin::commands::common::remote_repos;
use dadmin::commands::common::user;
use dadmin::commands::common::user_token;
use dadmin::commands::common::User;
use dadmin::commands::create::CreateArgs;
use dadmin::commands::create::CreateTeamArgs;
use dadmin::commands::topic_set::organisation;
use dadmin::commands::topic_set::TopicSetArgs;
use dadmin::filter::Filter;
use dadmin::github::models::RemoteApiError;
use dadmin::github::models::RemoteRepo;
use dadmin::github::rest::AcceptHeader;
use dadmin::github::rest::CreateTeamResponse;
use dadmin::github::rest::HttpMethod;
use dadmin::github::rest::RequestBody;
use dadmin::github::rest::create_team_response;
use dadmin::github::rest::list_org_repos;
use dadmin::github::rest::list_org_repos_response;
use dadmin::github::rest::set_default_branch;
use dadmin::github::rest::set_protected_branch;
use dadmin::github::rest::status_outcome;

fn rr(owner: &str, name: &str) -> RemoteRepo {
    RemoteRepo {
        owner: owner.to_string(),
        name: name.to_string(),
        default_branch: "main".to_string(),
    }
}

#[test]
fn status_mapping_is_uniform() {
    assert_eq!(status_outcome(401), Err(RemoteApiError::Unauthorized));
    assert_eq!(status_outcome(404), Err(RemoteApiError::Unsuccessful(404)));
    assert_eq!(status_outcome(422), Err(RemoteApiError::Unsuccessful(422)));
    assert_eq!(status_outcome(500), Err(RemoteApiError::Unsuccessful(500)));
    assert_eq!(status_outcome(199), Err(RemoteApiError::Unsuccessful(199)));
    assert_eq!(status_outcome(300), Err(RemoteApiError::Unsuccessful(300)));
    assert_eq!(status_outcome(200), Ok(()));
    assert_eq!(status_outcome(201), Ok(()));
    assert_eq!(status_outcome(204), Ok(()));
}

#[test]
fn set_default_branch_maps_unauthorized() {
    let repo = rr("divvun", "alpha");
    let req = set_default_branch(&repo, "main");
    assert!(matches!(req.method, HttpMethod::Patch));
    assert!(matches!(req.accept, AcceptHeader::V3Json));
    assert_eq!(req.url, "https://api.github.com/repos/divvun/alpha".to_string());
    match req.body {
        RequestBody::DefaultBranch(b) => assert_eq!(b.default_branch, "main".to_string()),
        _ => panic!("wrong body"),
    }
    // a 401 response denotes a rejected token, whatever the endpoint
    assert_eq!(status_outcome(401), Err(RemoteApiError::Unauthorized));
    // and at the command layer that is an invalid-token condition
    assert_eq!(
        remote_repos(Err(RemoteApiError::Unauthorized)).unwrap_err(),
        CommandError::InvalidToken
    );
}

#[test]
fn set_protected_branch_request_shape() {
    let repo = rr("divvun", "alpha");
    let req = set_protected_branch(&repo, "main");
    assert!(matches!(req.method, HttpMethod::Put));
    assert!(matches!(req.accept, AcceptHeader::LukeCagePreview));
    assert_eq!(
        req.url,
        "https://api.github.com/repos/divvun/alpha/branches/main/protection".to_string()
    );
    match req.body {
        RequestBody::Protection(b) => {
            assert!(b.enforce_admins);
            assert!(b.required_linear_history);
            assert!(!b.allow_force_pushes);
            assert!(!b.allow_deletions);
            assert!(b.required_status_checks.is_none());
            assert!(b.required_pull_request_reviews.is_none());
            assert!(b.restrictions.is_none());
        },
        _ => panic!("wrong body"),
    }
    assert_eq!(
        AcceptHeader::LukeCagePreview.value(),
        "application/vnd.github.luke-cage-preview+json"
    );
}

#[test]
fn create_team_request_and_privacy() {
    let args = CreateTeamArgs {
        organisation: "divvun".to_string(),
        team: "tools".to_string(),
        description: "tooling crew".to_string(),
        maintainers: vec!["ada".to_string()],
        secret: true,
    };
    let req = CreateArgs::Team(args).do_create();
    assert!(matches!(req.method, HttpMethod::Post));
    assert_eq!(req.url, "https://api.github.com/orgs/divvun/teams".to_string());
    match req.body {
        RequestBody::Team(b) => {
            assert_eq!(b.name, "tools".to_string());
            assert_eq!(b.description, "tooling crew".to_string());
            assert_eq!(b.maintainers, vec!["ada".to_string()]);
            assert_eq!(b.privacy, "secret".to_string());
        },
        _ => panic!("wrong body"),
    }

    let open_args = CreateTeamArgs {
        organisation: "divvun".to_string(),
        team: "docs".to_string(),
        description: String::new(),
        maintainers: Vec::new(),
        secret: false,
    };
    let req2 = CreateArgs::Team(open_args).do_create();
    match req2.body {
        RequestBody::Team(b) => assert_eq!(b.privacy, "closed".to_string()),
        _ => panic!("wrong body"),
    }
}

#[test]
fn create_team_response_mapping() {
    let ok = create_team_response(
        201,
        Some(CreateTeamResponse { id: 7, url: "https://api.github.com/teams/7".to_string() }),
    );
    match ok {
        Ok(body) => assert_eq!(body.id, 7),
        Err(_) => panic!("expected success"),
    }
    // a 2xx body of the wrong shape is a decode failure, not a panic
    assert!(matches!(create_team_response(200, None), Err(RemoteApiError::Decode)));
    assert!(matches!(create_team_response(401, None), Err(RemoteApiError::Unauthorized)));
    assert!(matches!(
        create_team_response(500, None),
        Err(RemoteApiError::Unsuccessful(500))
    ));
}

#[test]
fn topic_requests_cover_every_repo() {
    let args = TopicSetArgs {
        organisation: Some("divvun".to_string()),
        regex: None,
        topics: vec!["nlp".to_string(), "sami".to_string()],
    };
    let repos = vec![rr("divvun", "alpha"), rr("divvun", "beta")];
    let reqs = args.requests(&repos);
    assert_eq!(reqs.len(), 2);
    assert_eq!(reqs[0].url, "https://api.github.com/repos/divvun/alpha/topics".to_string());
    assert_eq!(reqs[1].url, "https://api.github.com/repos/divvun/beta/topics".to_string());
    for req in reqs {
        assert!(matches!(req.method, HttpMethod::Put));
        match req.body {
            RequestBody::Topics(b) => {
                assert_eq!(b.names, vec!["nlp".to_string(), "sami".to_string()])
            },
            _ => panic!("wrong body"),
        }
    }
}

#[test]
fn listing_and_screening() {
    let req = list_org_repos("divvun");
    assert!(matches!(req.method, HttpMethod::Get));
    assert_eq!(req.url, "https://api.github.com/orgs/divvun/repos".to_string());

    let listed = list_org_repos_response(200, Some(vec![rr("divvun", "alpha")]));
    assert!(listed.is_ok());
    // an empty successful listing is the caller's no-repositories error
    assert_eq!(
        remote_repos(list_org_repos_response(200, Some(Vec::new()))).unwrap_err(),
        CommandError::NoRepositories
    );
    assert_eq!(
        remote_repos(Err(RemoteApiError::NoReposFound)).unwrap_err(),
        CommandError::NoRepositories
    );
    assert_eq!(
        remote_repos(Err(RemoteApiError::Unsuccessful(503))).unwrap_err(),
        CommandError::Remote(RemoteApiError::Unsuccessful(503))
    );
}

#[test]
fn query_and_filter_keeps_matching_names() {
    let listing = Ok(vec![rr("divvun", "alpha"), rr("divvun", "beta-test"), rr("divvun", "gamma")]);
    let regex = Some(Filter::compile("beta").unwrap());
    let filtered = query_and_filter_repositories(listing, &regex).unwrap();
    assert_eq!(filtered.len(), 1);
    assert_eq!(filtered[0].name, "beta-test".to_string());

    let unauthorized = query_and_filter_repositories(Err(RemoteApiError::Unauthorized), &None);
    assert_eq!(unauthorized.unwrap_err(), CommandError::InvalidToken);
}

#[test]
fn stored_identity_is_required() {
    let u = User { username: "ada".to_string(), token: "tok123".to_string() };
    assert!(user(Some(u)).is_ok());
    assert_eq!(user(None).unwrap_err(), CommandError::MissingConfig);
    assert_eq!(user_token(Some("tok".to_string())).unwrap(), "tok".to_string());
    assert_eq!(user_token(None).unwrap_err(), CommandError::MissingConfig);

    assert_eq!(
        organisation(Some("divvun".to_string()), Some("other".to_string())).unwrap(),
        "divvun".to_string()
    );
    assert_eq!(organisation(None, Some("other".to_string())).unwrap(), "other".to_string());
    assert_eq!(organisation(None, None).unwrap_err(), CommandError::MissingConfig);
}

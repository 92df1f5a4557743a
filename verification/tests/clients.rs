use git_req::error::{OriginPart, RemoteError};
use git_req::exchange::{ApiEvent, ApiRequest, Payload, Shape, Step};
use git_req::payload::{BitbucketPullRequest, GitHubPullRequest};
use git_req::remotes::bitbucket::{
    query_bitbucket_api, retrieve_bitbucket_project_pull_requests, Bitbucket,
};
use git_req::remotes::github::{query_github_api, retrieve_github_project_pull_requests, GitHub};
use git_req::remotes::gitlab::{GitLab, Lookup};
use git_req::remotes::{get_remote, load_project_id, Remote, RemoteClient};
use git_req::requests::MergeRequest;

fn github() -> GitHub {
    GitHub {
        id: String::from("arusahni/git-req"),
        name: String::from("arusahni/git-req"),
        origin: String::from("git@github.com:arusahni/git-req.git"),
        api_root: String::from("https://api.github.com/repos"),
        api_key: String::from("k"),
    }
}

fn bitbucket() -> Bitbucket {
    Bitbucket {
        id: String::from("shorsher/test"),
        domain: String::from("bitbucket.org"),
        name: String::from("shorsher/test"),
        origin: String::from("git@bitbucket.org:shorsher/test.git"),
        api_root: String::from("https://api.bitbucket.org/2.0/repositories"),
        api_key: String::from("bb"),
    }
}

fn github_pull(number: i64) -> GitHubPullRequest {
    GitHubPullRequest {
        id: 100 + number,
        number,
        title: format!("Pull {}", number),
        body: None,
        html_url: String::from("https://github.com/x"),
    }
}

#[test]
fn a_github_origin_resolves_into_a_github_client() {
    let remote = get_remote("git@github.com:arusahni/git-req.git", String::from("k"), None);
    assert_eq!(remote, Ok(RemoteClient::GitHub(github())));
    assert!(!remote.unwrap().needs_project_id());
}

#[test]
fn a_stored_identity_is_of_no_account_to_github() {
    let remote = get_remote(
        "git@github.com:arusahni/git-req.git",
        String::from("k"),
        Some(String::from("99")),
    );
    assert_eq!(remote, Ok(RemoteClient::GitHub(github())));
}

#[test]
fn any_other_origin_resolves_into_a_gitlab_client() {
    let origin = "https://gitlab.example.com/my_namespace/my_project.git";
    let remote = get_remote(origin, String::from("glpat"), None).unwrap();
    assert_eq!(
        remote,
        RemoteClient::GitLab(GitLab {
            id: String::new(),
            domain: String::from("gitlab.example.com"),
            name: String::from("my_project"),
            namespace: String::from("my_namespace"),
            origin: String::from(origin),
            api_root: String::from("https://gitlab.example.com/api/v4"),
            api_key: String::from("glpat"),
            lookup: Lookup::Idle,
        })
    );
    assert!(remote.needs_project_id());
}

#[test]
fn a_github_origin_over_https_resolves_into_the_same_client() {
    let origin = "https://github.com/arusahni/git-req.git";
    let remote = get_remote(origin, String::from("k"), None).unwrap();
    let mut expected = github();
    expected.origin = String::from(origin);
    assert_eq!(remote, RemoteClient::GitHub(expected));
}

#[test]
fn a_bitbucket_origin_resolves_into_a_bitbucket_client() {
    for stored in [None, Some(String::from("42"))] {
        let mut remote =
            get_remote("git@bitbucket.org:shorsher/test.git", String::from("bb"), stored).unwrap();
        assert_eq!(remote, RemoteClient::Bitbucket(bitbucket()));
        assert!(!remote.needs_project_id());
        assert_eq!(
            remote.get_project_id(ApiEvent::Start),
            Step::Done(String::from("shorsher/test"))
        );
    }
    let remote =
        get_remote("https://bitbucket.org/shorsher/test.git", String::from("bb"), None).unwrap();
    match remote {
        RemoteClient::Bitbucket(client) => {
            assert_eq!(client.id, "shorsher/test");
            assert_eq!(client.name, "shorsher/test");
            assert_eq!(client.domain, "bitbucket.org");
            assert_eq!(client.api_root, "https://api.bitbucket.org/2.0/repositories");
            assert_eq!(client.api_key, "bb");
        }
        _ => panic!("not a Bitbucket client"),
    }
}

#[test]
fn a_stored_identity_spares_gitlab_the_lookup() {
    let origin = "git@gitlab.com:my_namespace/my_project.git";
    let mut remote = get_remote(origin, String::from("glpat"), Some(String::from("42"))).unwrap();
    assert!(!remote.needs_project_id());
    assert_eq!(remote.get_project_id(ApiEvent::Start), Step::Done(String::from("42")));
    match remote {
        RemoteClient::GitLab(client) => assert_eq!(client.id, "42"),
        _ => panic!("not a GitLab client"),
    }
}

#[test]
fn an_empty_stored_identity_counts_as_none() {
    let origin = "git@gitlab.com:my_namespace/my_project.git";
    let remote = get_remote(origin, String::from("glpat"), Some(String::new())).unwrap();
    assert!(remote.needs_project_id());
    assert_eq!(load_project_id(Some(String::new())), None);
    assert_eq!(load_project_id(None), None);
    assert_eq!(load_project_id(Some(String::from("42"))), Some(String::from("42")));
    assert_eq!(load_project_id(Some(String::from(" "))), Some(String::from(" ")));
}

#[test]
fn an_origin_without_a_host_is_malformed() {
    assert_eq!(
        get_remote("", String::from("k"), None),
        Err(RemoteError::MalformedOrigin { missing: OriginPart::Domain })
    );
    assert_eq!(
        get_remote("://", String::from("k"), Some(String::from("1"))),
        Err(RemoteError::MalformedOrigin { missing: OriginPart::Domain })
    );
}

#[test]
fn a_gitlab_origin_without_a_namespace_is_malformed() {
    assert_eq!(
        get_remote("git@gitlab.com:project.git", String::from("k"), None),
        Err(RemoteError::MalformedOrigin { missing: OriginPart::Namespace })
    );
    assert_eq!(
        get_remote("gitlab.com", String::from("k"), None),
        Err(RemoteError::MalformedOrigin { missing: OriginPart::Namespace })
    );
    assert_eq!(
        get_remote("https://gitlab.com/my_project.git", String::from("k"), Some(String::from("7"))),
        Err(RemoteError::MalformedOrigin { missing: OriginPart::Namespace })
    );
}

#[test]
fn a_github_origin_without_a_name_is_malformed() {
    assert_eq!(
        get_remote("git@github.com:repo", String::from("k"), None),
        Err(RemoteError::MalformedOrigin { missing: OriginPart::Name })
    );
    assert_eq!(
        get_remote("github.com", String::from("k"), None),
        Err(RemoteError::MalformedOrigin { missing: OriginPart::Name })
    );
    assert_eq!(
        get_remote("git@bitbucket.org:test.git", String::from("k"), None),
        Err(RemoteError::MalformedOrigin { missing: OriginPart::Name })
    );
}

#[test]
fn github_knows_its_identity_and_names_branches_itself() {
    let mut remote = github();
    assert_eq!(remote.get_project_id(ApiEvent::Start), Step::Done(String::from("arusahni/git-req")));
    assert_eq!(remote.get_req_branch(7, ApiEvent::Start), Step::Done(String::from("pr/7")));
    assert_eq!(remote.get_req_branch(-1, ApiEvent::TransportFailure), Step::Done(String::from("pr/-1")));
    assert_eq!(remote, github());
}

#[test]
fn github_lists_its_pull_requests() {
    let mut remote = github();
    assert_eq!(
        remote.get_req_names(ApiEvent::Start),
        Step::Fetch(ApiRequest {
            url: String::from("https://api.github.com/repos/arusahni/git-req/pulls"),
            header: String::from("Authorization"),
            value: String::from("token k"),
            expect: Shape::GitHubPulls,
        })
    );
    let body = Payload::GitHubPulls(vec![github_pull(7), github_pull(3)]);
    let step = remote.get_req_names(ApiEvent::Response { success: true, body: Some(body) });
    assert_eq!(
        step,
        Step::Done(vec![
            MergeRequest {
                id: 7,
                title: String::from("Pull 7"),
                description: None,
                source_branch: String::from("pr/7"),
            },
            MergeRequest {
                id: 3,
                title: String::from("Pull 3"),
                description: None,
                source_branch: String::from("pr/3"),
            },
        ])
    );
}

#[test]
fn github_does_not_look_at_the_status_of_the_list() {
    let mut remote = github();
    let body = Payload::GitHubPulls(vec![github_pull(1)]);
    let step = remote.get_req_names(ApiEvent::Response { success: false, body: Some(body) });
    assert!(matches!(step, Step::Done(_)));
}

#[test]
fn github_fails_on_transport_failure_and_wrong_shape() {
    let mut remote = github();
    assert_eq!(
        remote.get_req_names(ApiEvent::TransportFailure),
        Step::Failed(RemoteError::TransportFailure)
    );
    assert_eq!(
        remote.get_req_names(ApiEvent::Response { success: true, body: None }),
        Step::Failed(RemoteError::UnexpectedResponseShape)
    );
    assert_eq!(
        remote.get_req_names(ApiEvent::Response {
            success: true,
            body: Some(Payload::BitbucketPulls(Vec::new())),
        }),
        Step::Failed(RemoteError::UnexpectedResponseShape)
    );
}

#[test]
fn bitbucket_knows_its_identity_and_names_branches_itself() {
    let mut remote = bitbucket();
    assert_eq!(remote.get_project_id(ApiEvent::Start), Step::Done(String::from("shorsher/test")));
    assert_eq!(remote.get_req_branch(3, ApiEvent::Start), Step::Done(String::from("pr/3")));
    assert_eq!(remote.get_local_req_branch(3), Ok(String::from("pr/3")));
    assert_eq!(remote.get_remote_req_branch(3), Ok(String::from("pull/3/head")));
    assert_eq!(remote.get_remote_req_branch(-20), Ok(String::from("pull/-20/head")));
    assert_eq!(remote.get_domain(), "bitbucket.org");
    assert!(!remote.has_useful_branch_names());
}

#[test]
fn bitbucket_lists_its_pull_requests_with_a_bearer_token() {
    let mut remote = bitbucket();
    assert_eq!(
        remote.get_req_names(ApiEvent::Start),
        Step::Fetch(ApiRequest {
            url: String::from("https://api.bitbucket.org/2.0/repositories/shorsher/test/pullrequests"),
            header: String::from("Authorization"),
            value: String::from("Bearer bb"),
            expect: Shape::BitbucketPulls,
        })
    );
    let pull = BitbucketPullRequest {
        id: 4,
        title: String::from("Four"),
        summary: Some(String::from("sum")),
        html_url: String::from("https://bitbucket.org/x"),
    };
    let step = remote.get_req_names(ApiEvent::Response {
        success: true,
        body: Some(Payload::BitbucketPulls(vec![pull])),
    });
    assert_eq!(
        step,
        Step::Done(vec![MergeRequest {
            id: 4,
            title: String::from("Four"),
            description: Some(String::from("sum")),
            source_branch: String::from("pullrequests/4"),
        }])
    );
    assert_eq!(
        remote.get_req_names(ApiEvent::TransportFailure),
        Step::Failed(RemoteError::TransportFailure)
    );
    assert_eq!(
        remote.get_req_names(ApiEvent::Response { success: true, body: None }),
        Step::Failed(RemoteError::UnexpectedResponseShape)
    );
}

#[test]
fn a_client_of_any_provider_answers_as_the_provider_does() {
    let mut remote = RemoteClient::GitHub(github());
    assert_eq!(remote.get_project_id(ApiEvent::Start), Step::Done(String::from("arusahni/git-req")));
    assert_eq!(remote.get_req_branch(7, ApiEvent::Start), Step::Done(String::from("pr/7")));
    assert!(matches!(remote.get_req_names(ApiEvent::Start), Step::Fetch(_)));

    let mut remote = RemoteClient::Bitbucket(bitbucket());
    assert_eq!(remote.get_project_id(ApiEvent::Start), Step::Done(String::from("shorsher/test")));
    assert_eq!(remote.get_req_branch(2, ApiEvent::Start), Step::Done(String::from("pr/2")));
    assert!(!remote.needs_project_id());

    let origin = "git@gitlab.com:my_namespace/my_project.git";
    let mut remote = get_remote(origin, String::from("glpat"), None).unwrap();
    let step = remote.get_project_id(ApiEvent::Start);
    assert_eq!(
        step,
        Step::Fetch(ApiRequest {
            url: String::from("https://gitlab.com/api/v4/projects/my_namespace%2Fmy_project"),
            header: String::from("PRIVATE-TOKEN"),
            value: String::from("glpat"),
            expect: Shape::Project,
        })
    );
    assert!(matches!(remote.get_req_branch(1, ApiEvent::TransportFailure), Step::Failed(_)));
    assert!(matches!(remote.get_req_names(ApiEvent::Start), Step::Fetch(_)));
}

#[test]
fn every_failure_has_its_text() {
    assert_eq!(
        RemoteError::MalformedOrigin { missing: OriginPart::Domain }.message(),
        "invalid remote set"
    );
    assert_eq!(
        RemoteError::MalformedOrigin { missing: OriginPart::Namespace }.message(),
        "Could not parse the GitLab project namespace from the origin."
    );
    assert_eq!(
        RemoteError::MalformedOrigin { missing: OriginPart::Name }.message(),
        "Could not parse the project name from the origin."
    );
    assert_eq!(RemoteError::TransportFailure.message(), "failed to send request");
    assert_eq!(RemoteError::UnexpectedResponseShape.message(), "failed to read response");
    let guidance = "Unable to get the project ID from the GitLab API.\nFind and configure your project ID using the instructions at: https://github.com/arusahni/git-req/wiki/Finding-Project-IDs";
    assert_eq!(RemoteError::UnresolvableNamespace.message(), guidance);
    assert_eq!(RemoteError::ProjectNotFound.message(), guidance);
}

#[test]
fn each_provider_gets_the_token_its_own_way() {
    let request = query_github_api(String::from("https://u"), "abc", Shape::GitHubPulls);
    assert_eq!(request.header, "Authorization");
    assert_eq!(request.value, "token abc");
    assert_eq!(request.url, "https://u");
    assert_eq!(request.expect, Shape::GitHubPulls);
    let request = query_bitbucket_api(String::from("https://v"), "abc", Shape::BitbucketPulls);
    assert_eq!(request.header, "Authorization");
    assert_eq!(request.value, "Bearer abc");
    assert_eq!(request.url, "https://v");
    assert_eq!(request.expect, Shape::BitbucketPulls);
}

#[test]
fn lists_can_be_asked_for_without_a_mutable_client() {
    assert!(matches!(
        retrieve_github_project_pull_requests(&github(), ApiEvent::Start),
        Step::Fetch(_)
    ));
    assert_eq!(
        retrieve_github_project_pull_requests(
            &github(),
            ApiEvent::Response { success: true, body: Some(Payload::GitHubPulls(Vec::new())) }
        ),
        Step::Done(Vec::new())
    );
    assert!(matches!(
        retrieve_bitbucket_project_pull_requests(&bitbucket(), ApiEvent::Start),
        Step::Fetch(_)
    ));
    assert_eq!(
        retrieve_bitbucket_project_pull_requests(&bitbucket(), ApiEvent::TransportFailure),
        Step::Failed(RemoteError::TransportFailure)
    );
}

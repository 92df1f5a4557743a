use git_req::payload::{BitbucketPullRequest, GitHubPullRequest, GitLabMergeRequest};
use git_req::requests::{
    bitbucket_requests, bitbucket_to_mr, github_requests, github_to_mr, gitlab_requests,
    gitlab_to_mr, pr_branch_name, pullrequests_branch_name, MergeRequest,
};

fn github_pull(number: i64, title: &str, body: Option<&str>) -> GitHubPullRequest {
    GitHubPullRequest {
        id: 1000 + number,
        number,
        title: String::from(title),
        body: body.map(String::from),
        html_url: format!("https://github.com/o/r/pull/{}", number),
    }
}

fn gitlab_merge(id: i64, iid: i64, title: &str, branch: &str) -> GitLabMergeRequest {
    GitLabMergeRequest {
        id,
        iid,
        title: String::from(title),
        description: Some(String::from("what it does")),
        target_branch: String::from("master"),
        source_branch: String::from(branch),
        sha: String::from("0a1b2c"),
        web_url: String::from("https://gitlab.com/n/p/merge_requests/1"),
    }
}

fn bitbucket_pull(id: i64, title: &str, summary: Option<&str>) -> BitbucketPullRequest {
    BitbucketPullRequest {
        id,
        title: String::from(title),
        summary: summary.map(String::from),
        html_url: String::from("https://bitbucket.org/o/r/pull-requests/1"),
    }
}

#[test]
fn github_pull_request_maps_number_title_and_body() {
    let mr = github_to_mr(github_pull(7, "Fix bug", None));
    assert_eq!(
        mr,
        MergeRequest {
            id: 7,
            title: String::from("Fix bug"),
            description: None,
            source_branch: String::from("pr/7"),
        }
    );
}

#[test]
fn github_branch_depends_on_the_number_alone() {
    for (title, body) in [("", None), ("", Some("")), ("pr/99", Some("pullrequests/1"))] {
        let mr = github_to_mr(github_pull(123, title, body));
        assert_eq!(mr.id, 123);
        assert_eq!(mr.title, title);
        assert_eq!(mr.description, body.map(String::from));
        assert_eq!(mr.source_branch, "pr/123");
    }
}

#[test]
fn github_id_is_the_number_not_the_global_id() {
    let mut pull = github_pull(5, "t", None);
    pull.id = 987654321;
    let mr = github_to_mr(pull);
    assert_eq!(mr.id, 5);
    assert_eq!(mr.source_branch, "pr/5");
}

#[test]
fn gitlab_merge_request_keeps_its_branch_and_maps_the_iid() {
    let mr = gitlab_to_mr(gitlab_merge(98765, 3, "Add feature", "feature/x y"));
    assert_eq!(
        mr,
        MergeRequest {
            id: 3,
            title: String::from("Add feature"),
            description: Some(String::from("what it does")),
            source_branch: String::from("feature/x y"),
        }
    );
}

#[test]
fn gitlab_merge_request_without_description() {
    let mut request = gitlab_merge(1, 2, "", "");
    request.description = None;
    let mr = gitlab_to_mr(request);
    assert_eq!(mr.id, 2);
    assert_eq!(mr.title, "");
    assert_eq!(mr.description, None);
    assert_eq!(mr.source_branch, "");
}

#[test]
fn bitbucket_pull_request_maps_id_title_and_summary() {
    let mr = bitbucket_to_mr(bitbucket_pull(12, "Tidy up", Some("less code")));
    assert_eq!(
        mr,
        MergeRequest {
            id: 12,
            title: String::from("Tidy up"),
            description: Some(String::from("less code")),
            source_branch: String::from("pullrequests/12"),
        }
    );
}

#[test]
fn bitbucket_branch_depends_on_the_id_alone() {
    for (title, summary) in [("", None), ("pr/1", Some(""))] {
        let mr = bitbucket_to_mr(bitbucket_pull(40, title, summary));
        assert_eq!(mr.source_branch, "pullrequests/40");
        assert_eq!(mr.title, title);
    }
}

#[test]
fn branch_names_hold_the_number_in_decimal() {
    assert_eq!(pr_branch_name(0), "pr/0");
    assert_eq!(pr_branch_name(1050), "pr/1050");
    assert_eq!(pr_branch_name(-3), "pr/-3");
    assert_eq!(pr_branch_name(i64::MIN), "pr/-9223372036854775808");
    assert_eq!(pullrequests_branch_name(0), "pullrequests/0");
    assert_eq!(pullrequests_branch_name(i64::MAX), "pullrequests/9223372036854775807");
}

#[test]
fn lists_are_mapped_one_for_one_in_order() {
    let mapped = github_requests(vec![
        github_pull(3, "c", None),
        github_pull(1, "a", Some("x")),
        github_pull(2, "b", None),
    ]);
    let ids: Vec<i64> = mapped.iter().map(|mr| mr.id).collect();
    assert_eq!(ids, vec![3, 1, 2]);
    assert_eq!(mapped[1].source_branch, "pr/1");
    assert_eq!(mapped[1].description, Some(String::from("x")));

    let mapped = gitlab_requests(vec![gitlab_merge(10, 2, "b", "two"), gitlab_merge(11, 1, "a", "one")]);
    assert_eq!(mapped.len(), 2);
    assert_eq!(mapped[0].id, 2);
    assert_eq!(mapped[0].source_branch, "two");
    assert_eq!(mapped[1].id, 1);
    assert_eq!(mapped[1].source_branch, "one");

    let mapped = bitbucket_requests(vec![bitbucket_pull(8, "h", None), bitbucket_pull(9, "i", None)]);
    assert_eq!(mapped.len(), 2);
    assert_eq!(mapped[0].source_branch, "pullrequests/8");
    assert_eq!(mapped[1].source_branch, "pullrequests/9");
}

#[test]
fn empty_lists_map_to_empty_lists() {
    assert!(github_requests(Vec::new()).is_empty());
    assert!(gitlab_requests(Vec::new()).is_empty());
    assert!(bitbucket_requests(Vec::new()).is_empty());
}

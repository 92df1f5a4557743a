//! The records that the providers' APIs answer with, as far as this crate
//! reads them.

use vstd::prelude::*;

verus! {

/// A pull request as GitHub lists it.
#[derive(Clone, Debug, PartialEq, Eq)]
pub struct GitHubPullRequest {
    pub id: i64,
    pub number: i64,
    pub title: String,
    pub body: Option<String>,
    pub html_url: String,
}

/// A merge request as GitLab lists it.
#[derive(Clone, Debug, PartialEq, Eq)]
pub struct GitLabMergeRequest {
    pub id: i64,
    pub iid: i64,
    pub title: String,
    pub description: Option<String>,
    pub target_branch: String,
    pub source_branch: String,
    pub sha: String,
    pub web_url: String,
}

/// A pull request as Bitbucket lists it.
#[derive(Clone, Debug, PartialEq, Eq)]
pub struct BitbucketPullRequest {
    pub id: i64,
    pub title: String,
    pub summary: Option<String>,
    pub html_url: String,
}

/// A project as GitLab describes it.
#[derive(Clone, Debug, PartialEq, Eq)]
pub struct GitLabProject {
    pub id: i64,
    pub description: Option<String>,
    pub name: String,
    pub path: String,
    pub path_with_namespace: String,
}

/// A namespace as GitLab describes it.
#[derive(Clone, Debug, PartialEq, Eq)]
pub struct GitLabNamespace {
    pub id: i64,
    pub name: String,
    pub path: String,
    pub kind: String,
    pub full_path: String,
}

} // verus!

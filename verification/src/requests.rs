//! The one model of a merge request that every provider's records are
//! brought into.

use vstd::prelude::*;
use crate::payload::{BitbucketPullRequest, GitHubPullRequest, GitLabMergeRequest};
use crate::text::{decimal, decimal_string, view_of};

verus! {

/// A merge or pull request, whatever the provider.
#[derive(Clone, Debug, PartialEq, Eq)]
pub struct MergeRequest {
    pub id: i64,
    pub title: String,
    pub description: Option<String>,
    pub source_branch: String,
}

/// What a `MergeRequest` holds.
pub struct MergeRequestView {
    pub id: int,
    pub title: Seq<char>,
    pub description: Option<Seq<char>>,
    pub source_branch: Seq<char>,
}

impl View for MergeRequest {
    type V = MergeRequestView;

    open spec fn view(&self) -> MergeRequestView {
        MergeRequestView {
            id: self.id as int,
            title: self.title@,
            description: view_of(self.description),
            source_branch: self.source_branch@,
        }
    }
}

impl DeepView for MergeRequest {
    type V = MergeRequestView;

    open spec fn deep_view(&self) -> MergeRequestView {
        self@
    }
}

/// The local branch that stands for GitHub's pull request `n`: `pr/` and the
/// number.
pub open spec fn pr_branch(n: int) -> Seq<char> {
    seq!['p', 'r', '/'] + decimal(n)
}

/// The local branch that stands for Bitbucket's pull request `n`:
/// `pullrequests/` and the number.
pub open spec fn pullrequests_branch(n: int) -> Seq<char> {
    seq!['p', 'u', 'l', 'l', 'r', 'e', 'q', 'u', 'e', 's', 't', 's', '/'] + decimal(n)
}

/// What GitHub's pull request `req` is as a merge request: its number is the
/// id, and the branch is named after the number.
pub open spec fn github_mr(req: GitHubPullRequest) -> MergeRequestView {
    MergeRequestView {
        id: req.number as int,
        title: req.title@,
        description: view_of(req.body),
        source_branch: pr_branch(req.number as int),
    }
}

/// What GitLab's merge request `req` is as a merge request: the id is the
/// number within the project, and the branch is the one GitLab names.
pub open spec fn gitlab_mr(req: GitLabMergeRequest) -> MergeRequestView {
    MergeRequestView {
        id: req.iid as int,
        title: req.title@,
        description: view_of(req.description),
        source_branch: req.source_branch@,
    }
}

/// What Bitbucket's pull request `req` is as a merge request: the branch is
/// named after the id.
pub open spec fn bitbucket_mr(req: BitbucketPullRequest) -> MergeRequestView {
    MergeRequestView {
        id: req.id as int,
        title: req.title@,
        description: view_of(req.summary),
        source_branch: pullrequests_branch(req.id as int),
    }
}

/// The name of the local branch for GitHub's pull request `n`.
pub fn pr_branch_name(n: i64) -> (branch: String)
    ensures
        branch@ == pr_branch(n as int),
{
    proof {
        reveal_strlit("pr/");
        assert("pr/"@ =~= seq!['p', 'r', '/']);
    }
    let mut branch: String = String::from_str("pr/");
    branch.append(decimal_string(n).as_str());
    branch
}

/// The name of the local branch for Bitbucket's pull request `n`.
pub fn pullrequests_branch_name(n: i64) -> (branch: String)
    ensures
        branch@ == pullrequests_branch(n as int),
{
    proof {
        reveal_strlit("pullrequests/");
        assert("pullrequests/"@ =~= seq![
            'p',
            'u',
            'l',
            'l',
            'r',
            'e',
            'q',
            'u',
            'e',
            's',
            't',
            's',
            '/',
        ]);
    }
    let mut branch: String = String::from_str("pullrequests/");
    branch.append(decimal_string(n).as_str());
    branch
}

/// Brings a pull request of GitHub into the common model.
pub fn github_to_mr(req: GitHubPullRequest) -> (mr: MergeRequest)
    ensures
        mr@ == github_mr(req),
{
    let source_branch = pr_branch_name(req.number);
    MergeRequest { id: req.number, title: req.title, description: req.body, source_branch }
}

/// Brings a merge request of GitLab into the common model.
pub fn gitlab_to_mr(req: GitLabMergeRequest) -> (mr: MergeRequest)
    ensures
        mr@ == gitlab_mr(req),
{
    MergeRequest {
        id: req.iid,
        title: req.title,
        description: req.description,
        source_branch: req.source_branch,
    }
}

/// Brings a pull request of Bitbucket into the common model.
pub fn bitbucket_to_mr(req: BitbucketPullRequest) -> (mr: MergeRequest)
    ensures
        mr@ == bitbucket_mr(req),
{
    let source_branch = pullrequests_branch_name(req.id);
    MergeRequest { id: req.id, title: req.title, description: req.summary, source_branch }
}

/// What a list of GitHub's pull requests is as merge requests, one for one
/// and in the same order.
pub open spec fn github_mrs(reqs: Seq<GitHubPullRequest>) -> Seq<MergeRequestView> {
    Seq::new(reqs.len(), |i: int| github_mr(reqs[i]))
}

/// What a list of GitLab's merge requests is as merge requests, one for one
/// and in the same order.
pub open spec fn gitlab_mrs(reqs: Seq<GitLabMergeRequest>) -> Seq<MergeRequestView> {
    Seq::new(reqs.len(), |i: int| gitlab_mr(reqs[i]))
}

/// What a list of Bitbucket's pull requests is as merge requests, one for one
/// and in the same order.
pub open spec fn bitbucket_mrs(reqs: Seq<BitbucketPullRequest>) -> Seq<MergeRequestView> {
    Seq::new(reqs.len(), |i: int| bitbucket_mr(reqs[i]))
}

/// Brings a list of GitHub's pull requests into the common model.
pub fn github_requests(reqs: Vec<GitHubPullRequest>) -> (out: Vec<MergeRequest>)
    ensures
        out.deep_view() == github_mrs(reqs@),
{
    let mut out: Vec<MergeRequest> = Vec::new();
    for req in it: reqs
        invariant
            out.len() == it.index(),
            forall|i: int| 0 <= i < out.len() ==> (#[trigger] out[i])@ == github_mr(it.seq()[i]),
    {
        out.push(github_to_mr(req));
    }
    assert(out.deep_view() =~= github_mrs(reqs@));
    out
}

/// Brings a list of GitLab's merge requests into the common model.
pub fn gitlab_requests(reqs: Vec<GitLabMergeRequest>) -> (out: Vec<MergeRequest>)
    ensures
        out.deep_view() == gitlab_mrs(reqs@),
{
    let mut out: Vec<MergeRequest> = Vec::new();
    for req in it: reqs
        invariant
            out.len() == it.index(),
            forall|i: int| 0 <= i < out.len() ==> (#[trigger] out[i])@ == gitlab_mr(it.seq()[i]),
    {
        out.push(gitlab_to_mr(req));
    }
    assert(out.deep_view() =~= gitlab_mrs(reqs@));
    out
}

/// Brings a list of Bitbucket's pull requests into the common model.
pub fn bitbucket_requests(reqs: Vec<BitbucketPullRequest>) -> (out: Vec<MergeRequest>)
    ensures
        out.deep_view() == bitbucket_mrs(reqs@),
{
    let mut out: Vec<MergeRequest> = Vec::new();
    for req in it: reqs
        invariant
            out.len() == it.index(),
            forall|i: int|
                0 <= i < out.len() ==> (#[trigger] out[i])@ == bitbucket_mr(it.seq()[i]),
    {
        out.push(bitbucket_to_mr(req));
    }
    assert(out.deep_view() =~= bitbucket_mrs(reqs@));
    out
}

/// The branch of a pull request of GitHub is `pr/` and its number, and that of
/// a pull request of Bitbucket `pullrequests/` and its id, whatever title and
/// description hold: two requests with one number get one branch.
pub proof fn lemma_synthetic_branches(
    github: GitHubPullRequest,
    other_github: GitHubPullRequest,
    bitbucket: BitbucketPullRequest,
    other_bitbucket: BitbucketPullRequest,
)
    ensures
        github_mr(github).source_branch == seq!['p', 'r', '/'] + decimal(github.number as int),
        github.number == other_github.number ==> github_mr(github).source_branch == github_mr(
            other_github,
        ).source_branch,
        bitbucket_mr(bitbucket).source_branch == seq![
            'p',
            'u',
            'l',
            'l',
            'r',
            'e',
            'q',
            'u',
            'e',
            's',
            't',
            's',
            '/',
        ] + decimal(bitbucket.id as int),
        bitbucket.id == other_bitbucket.id ==> bitbucket_mr(bitbucket).source_branch
            == bitbucket_mr(other_bitbucket).source_branch,
{
}

/// GitLab's merge request keeps its source branch as it is, and its id in the
/// common model is the number within the project, not the global id.
pub proof fn lemma_gitlab_mapping(req: GitLabMergeRequest)
    ensures
        gitlab_mr(req).source_branch == req.source_branch@,
        gitlab_mr(req).id == req.iid,
        gitlab_mr(req).title == req.title@,
        gitlab_mr(req).description == view_of(req.description),
{
}

} // verus!

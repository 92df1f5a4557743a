//! The client of a project on Bitbucket.

use vstd::prelude::*;
use crate::error::RemoteError;
use crate::exchange::{
    api_request, ApiEvent, ApiRequest, ApiRequestView, Outcome, Payload, Shape, Step,
};
use crate::origin::{get_github_project_name, github_name};
use crate::remotes::Remote;
use crate::requests::{
    bitbucket_mrs, bitbucket_requests, pr_branch, pr_branch_name, MergeRequest, MergeRequestView,
};
use crate::text::{concat, decimal, decimal_string, view_of};

verus! {

/// A project on Bitbucket.
#[derive(Clone, Debug, PartialEq, Eq)]
pub struct Bitbucket {
    pub id: String,
    pub domain: String,
    pub name: String,
    pub origin: String,
    pub api_root: String,
    pub api_key: String,
}

/// What a `Bitbucket` holds.
pub struct BitbucketView {
    pub id: Seq<char>,
    pub domain: Seq<char>,
    pub name: Seq<char>,
    pub origin: Seq<char>,
    pub api_root: Seq<char>,
    pub api_key: Seq<char>,
}

impl View for Bitbucket {
    type V = BitbucketView;

    open spec fn view(&self) -> BitbucketView {
        BitbucketView {
            id: self.id@,
            domain: self.domain@,
            name: self.name@,
            origin: self.origin@,
            api_root: self.api_root@,
            api_key: self.api_key@,
        }
    }
}

/// The request for the open pull requests of a project on Bitbucket. The
/// credential is a bearer token.
pub open spec fn bitbucket_pulls_request(b: BitbucketView) -> ApiRequestView {
    ApiRequestView {
        url: b.api_root + "/"@ + b.id + "/pullrequests"@,
        header: "Authorization"@,
        value: "Bearer "@ + b.api_key,
        expect: Shape::BitbucketPulls,
    }
}

/// What a Bitbucket client answers when asked for the open requests: it asks
/// for the list, and brings the list that comes back into the common model.
/// The status of the response is not looked at.
pub open spec fn bitbucket_names_step(b: BitbucketView, event: ApiEvent) -> Outcome<
    Seq<MergeRequestView>,
> {
    match event {
        ApiEvent::Start => Outcome::Fetch(bitbucket_pulls_request(b)),
        ApiEvent::TransportFailure => Outcome::Failed(RemoteError::TransportFailure),
        ApiEvent::Response { success, body } => match body {
            Some(Payload::BitbucketPulls(pulls)) => Outcome::Done(bitbucket_mrs(pulls@)),
            _ => Outcome::Failed(RemoteError::UnexpectedResponseShape),
        },
    }
}

/// The ref under which Bitbucket offers the head of the pull request `n`:
/// `pull/`, the number and `/head`.
pub open spec fn pull_head(n: int) -> Seq<char> {
    "pull/"@ + decimal(n) + "/head"@
}

/// The project name of `origin` in Bitbucket's convention, which is
/// GitHub's: owner and repository, with the slash between them.
pub fn get_bitbucket_project_name(origin: &str) -> (name: Option<String>)
    ensures
        view_of(name) == github_name(origin@),
{
    get_github_project_name(origin)
}

/// The GET request for `url` that carries `token` as a bearer token.
pub fn query_bitbucket_api(url: String, token: &str, expect: Shape) -> (request: ApiRequest)
    ensures
        request@ == (ApiRequestView {
            url: url@,
            header: "Authorization"@,
            value: "Bearer "@ + token@,
            expect,
        }),
{
    api_request(url, "Authorization", concat("Bearer ", token), expect)
}

/// The next step towards the open pull requests of `remote`.
pub fn retrieve_bitbucket_project_pull_requests(remote: &Bitbucket, event: ApiEvent) -> (step:
    Step<Vec<MergeRequest>>)
    ensures
        step.deep_view() == bitbucket_names_step(remote@, event),
{
    match event {
        ApiEvent::Start => {
            let mut url: String = concat(remote.api_root.as_str(), "/");
            url.append(remote.id.as_str());
            url.append("/pullrequests");
            Step::Fetch(query_bitbucket_api(url, remote.api_key.as_str(), Shape::BitbucketPulls))
        },
        ApiEvent::TransportFailure => Step::Failed(RemoteError::TransportFailure),
        ApiEvent::Response { success, body } => match body {
            Some(Payload::BitbucketPulls(pulls)) => Step::Done(bitbucket_requests(pulls)),
            _ => Step::Failed(RemoteError::UnexpectedResponseShape),
        },
    }
}

impl Bitbucket {
    /// The host of the project.
    pub fn get_domain(&self) -> (host: String)
        ensures
            host@ == self.domain@,
    {
        self.domain.clone()
    }

    /// Bitbucket's pull requests have no branch name of their own that
    /// could be checked out.
    pub fn has_useful_branch_names(&self) -> (useful: bool)
        ensures
            !useful,
    {
        false
    }

    /// The local branch for the pull request `mr_id`.
    pub fn get_local_req_branch(&self, mr_id: i64) -> (branch: Result<String, RemoteError>)
        ensures
            branch matches Ok(name) && name@ == pr_branch(mr_id as int),
    {
        Ok(pr_branch_name(mr_id))
    }

    /// The ref on the remote that holds the pull request `mr_id`.
    pub fn get_remote_req_branch(&self, mr_id: i64) -> (branch: Result<String, RemoteError>)
        ensures
            branch matches Ok(name) && name@ == pull_head(mr_id as int),
    {
        let mut name: String = concat("pull/", decimal_string(mr_id).as_str());
        name.append("/head");
        Ok(name)
    }
}

impl Remote for Bitbucket {
    open spec fn identity(&self) -> Seq<char> {
        self.id@
    }

    open spec fn project_id_answer(&self, event: ApiEvent) -> Outcome<Seq<char>> {
        Outcome::Done(self.id@)
    }

    open spec fn branch_answer(&self, mr_id: int, event: ApiEvent) -> Outcome<Seq<char>> {
        Outcome::Done(pr_branch(mr_id))
    }

    open spec fn names_answer(&self, event: ApiEvent) -> Outcome<Seq<MergeRequestView>> {
        bitbucket_names_step(self@, event)
    }

    /// Bitbucket knows a project by its name: there is nothing to resolve.
    fn get_project_id(&mut self, event: ApiEvent) -> (step: Step<String>)
        ensures
            final(self)@ == old(self)@,
            step.deep_view() == Outcome::<Seq<char>>::Done(old(self).id@),
    {
        Step::Done(self.id.clone())
    }

    /// The branch of a pull request is a local one, named after the number.
    fn get_req_branch(&mut self, mr_id: i64, event: ApiEvent) -> (step: Step<String>)
        ensures
            final(self)@ == old(self)@,
            step.deep_view() == Outcome::<Seq<char>>::Done(pr_branch(mr_id as int)),
    {
        Step::Done(pr_branch_name(mr_id))
    }

    fn get_req_names(&mut self, event: ApiEvent) -> (step: Step<Vec<MergeRequest>>)
        ensures
            final(self)@ == old(self)@,
            step.deep_view() == bitbucket_names_step(old(self)@, event),
    {
        retrieve_bitbucket_project_pull_requests(self, event)
    }
}

} // verus!

//! The client of a project on GitHub.

use vstd::prelude::*;
use crate::error::RemoteError;
use crate::exchange::{
    api_request, ApiEvent, ApiRequest, ApiRequestView, Outcome, Payload, Shape, Step,
};
use crate::remotes::Remote;
use crate::requests::{
    github_mrs, github_requests, pr_branch, pr_branch_name, MergeRequest, MergeRequestView,
};
use crate::text::concat;

verus! {

/// A project on GitHub.
#[derive(Clone, Debug, PartialEq, Eq)]
pub struct GitHub {
    pub id: String,
    pub name: String,
    pub origin: String,
    pub api_root: String,
    pub api_key: String,
}

/// What a `GitHub` holds.
pub struct GitHubView {
    pub id: Seq<char>,
    pub name: Seq<char>,
    pub origin: Seq<char>,
    pub api_root: Seq<char>,
    pub api_key: Seq<char>,
}

impl View for GitHub {
    type V = GitHubView;

    open spec fn view(&self) -> GitHubView {
        GitHubView {
            id: self.id@,
            name: self.name@,
            origin: self.origin@,
            api_root: self.api_root@,
            api_key: self.api_key@,
        }
    }
}

/// The request for the open pull requests of a project on GitHub.
pub open spec fn github_pulls_request(g: GitHubView) -> ApiRequestView {
    ApiRequestView {
        url: g.api_root + "/"@ + g.id + "/pulls"@,
        header: "Authorization"@,
        value: "token "@ + g.api_key,
        expect: Shape::GitHubPulls,
    }
}

/// What a GitHub client answers when asked for the open requests: it asks
/// for the list, and brings the list that comes back into the common model.
/// The status of the response is not looked at.
pub open spec fn github_names_step(g: GitHubView, event: ApiEvent) -> Outcome<
    Seq<MergeRequestView>,
> {
    match event {
        ApiEvent::Start => Outcome::Fetch(github_pulls_request(g)),
        ApiEvent::TransportFailure => Outcome::Failed(RemoteError::TransportFailure),
        ApiEvent::Response { success, body } => match body {
            Some(Payload::GitHubPulls(pulls)) => Outcome::Done(github_mrs(pulls@)),
            _ => Outcome::Failed(RemoteError::UnexpectedResponseShape),
        },
    }
}

/// The GET request for `url` that carries `token` the way GitHub wants it.
pub fn query_github_api(url: String, token: &str, expect: Shape) -> (request: ApiRequest)
    ensures
        request@ == (ApiRequestView {
            url: url@,
            header: "Authorization"@,
            value: "token "@ + token@,
            expect,
        }),
{
    api_request(url, "Authorization", concat("token ", token), expect)
}

/// The next step towards the open pull requests of `remote`.
pub fn retrieve_github_project_pull_requests(remote: &GitHub, event: ApiEvent) -> (step: Step<
    Vec<MergeRequest>,
>)
    ensures
        step.deep_view() == github_names_step(remote@, event),
{
    match event {
        ApiEvent::Start => {
            let mut url: String = concat(remote.api_root.as_str(), "/");
            url.append(remote.id.as_str());
            url.append("/pulls");
            Step::Fetch(query_github_api(url, remote.api_key.as_str(), Shape::GitHubPulls))
        },
        ApiEvent::TransportFailure => Step::Failed(RemoteError::TransportFailure),
        ApiEvent::Response { success, body } => match body {
            Some(Payload::GitHubPulls(pulls)) => Step::Done(github_requests(pulls)),
            _ => Step::Failed(RemoteError::UnexpectedResponseShape),
        },
    }
}

impl Remote for GitHub {
    open spec fn identity(&self) -> Seq<char> {
        self.id@
    }

    open spec fn project_id_answer(&self, event: ApiEvent) -> Outcome<Seq<char>> {
        Outcome::Done(self.id@)
    }

    open spec fn branch_answer(&self, mr_id: int, event: ApiEvent) -> Outcome<Seq<char>> {
        Outcome::Done(pr_branch(mr_id))
    }

    open spec fn names_answer(&self, event: ApiEvent) -> Outcome<Seq<MergeRequestView>> {
        github_names_step(self@, event)
    }

    /// GitHub knows a project by its name: there is nothing to resolve.
    fn get_project_id(&mut self, event: ApiEvent) -> (step: Step<String>)
        ensures
            final(self)@ == old(self)@,
            step.deep_view() == Outcome::<Seq<char>>::Done(old(self).id@),
    {
        Step::Done(self.id.clone())
    }

    /// The branch of a pull request is a local one, named after the number.
    fn get_req_branch(&mut self, mr_id: i64, event: ApiEvent) -> (step: Step<String>)
        ensures
            final(self)@ == old(self)@,
            step.deep_view() == Outcome::<Seq<char>>::Done(pr_branch(mr_id as int)),
    {
        Step::Done(pr_branch_name(mr_id))
    }

    fn get_req_names(&mut self, event: ApiEvent) -> (step: Step<Vec<MergeRequest>>)
        ensures
            final(self)@ == old(self)@,
            step.deep_view() == github_names_step(old(self)@, event),
    {
        retrieve_github_project_pull_requests(self, event)
    }
}

} // verus!

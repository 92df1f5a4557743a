//! What passes between a client and whoever talks to the network for it: the
//! requests that a client asks for, the replies it is handed, and the steps
//! it answers with.

use vstd::prelude::*;
use crate::error::RemoteError;
use crate::payload::{
    BitbucketPullRequest, GitHubPullRequest, GitLabMergeRequest, GitLabNamespace, GitLabProject,
};

verus! {

/// The record that the body of a response is to be read as.
#[derive(Clone, Copy, Debug, PartialEq, Eq, Structural)]
pub enum Shape {
    /// One project of GitLab.
    Project,
    /// One namespace of GitLab.
    Namespace,
    /// A list of GitLab's projects.
    Projects,
    /// One merge request of GitLab.
    MergeRequest,
    /// A list of GitLab's merge requests.
    MergeRequests,
    /// A list of GitHub's pull requests.
    GitHubPulls,
    /// A list of Bitbucket's pull requests.
    BitbucketPulls,
}

/// A GET request with one header that carries the credential.
#[derive(Clone, Debug, PartialEq, Eq)]
pub struct ApiRequest {
    pub url: String,
    pub header: String,
    pub value: String,
    pub expect: Shape,
}

/// What an `ApiRequest` holds.
pub struct ApiRequestView {
    pub url: Seq<char>,
    pub header: Seq<char>,
    pub value: Seq<char>,
    pub expect: Shape,
}

impl View for ApiRequest {
    type V = ApiRequestView;

    open spec fn view(&self) -> ApiRequestView {
        ApiRequestView {
            url: self.url@,
            header: self.header@,
            value: self.value@,
            expect: self.expect,
        }
    }
}

/// The body of a response, read as the record that the request called for.
#[derive(Clone, Debug, PartialEq, Eq)]
pub enum Payload {
    Project(GitLabProject),
    Namespace(GitLabNamespace),
    Projects(Vec<GitLabProject>),
    MergeRequest(GitLabMergeRequest),
    MergeRequests(Vec<GitLabMergeRequest>),
    GitHubPulls(Vec<GitHubPullRequest>),
    BitbucketPulls(Vec<BitbucketPullRequest>),
}

/// What a client is handed when it is asked for its next step.
#[derive(Clone, Debug, PartialEq, Eq)]
pub enum ApiEvent {
    /// Nothing has been requested yet.
    Start,
    /// The last request could not be sent, or no response came back.
    TransportFailure,
    /// The response to the last request: whether its status was a success,
    /// and its body, or `None` where the body could not be read as the record
    /// that the request called for.
    Response { success: bool, body: Option<Payload> },
}

/// What a client answers with.
#[derive(Clone, Debug, PartialEq, Eq)]
pub enum Step<T> {
    /// The answer.
    Done(T),
    /// The request to perform next; its reply goes to the same method.
    Fetch(ApiRequest),
    /// The failure that ends the exchange.
    Failed(RemoteError),
}

/// What a `Step` holds.
pub enum Outcome<V> {
    Done(V),
    Fetch(ApiRequestView),
    Failed(RemoteError),
}

impl<T: DeepView> DeepView for Step<T> {
    type V = Outcome<T::V>;

    open spec fn deep_view(&self) -> Outcome<T::V> {
        match *self {
            Step::Done(value) => Outcome::Done(value.deep_view()),
            Step::Fetch(request) => Outcome::Fetch(request@),
            Step::Failed(error) => Outcome::Failed(error),
        }
    }
}

/// Builds a request from its parts.
pub(crate) fn api_request(url: String, header: &str, value: String, expect: Shape) -> (request: ApiRequest)
    ensures
        request@ == (ApiRequestView { url: url@, header: header@, value: value@, expect }),
{
    ApiRequest { url, header: String::from_str(header), value, expect }
}

} // verus!

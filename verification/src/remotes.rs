//! The clients of the three providers, what they can be asked, and how an
//! origin URL is resolved into one of them.
//!
//! A client never talks to the network. A capability that needs it is a
//! method that takes the reply to the last request and answers with a
//! `Step`: the answer, the next request, or the failure.

pub mod bitbucket;
pub mod github;
pub mod gitlab;

use vstd::prelude::*;
use crate::error::{OriginPart, RemoteError};
use crate::exchange::{ApiEvent, Outcome, Step};
use crate::origin::{
    domain, get_domain, get_github_project_name, get_gitlab_project_name,
    get_gitlab_project_namespace, github_name, gitlab_name, gitlab_namespace, https_origin,
    is_label, lemma_https_origin, lemma_namespace_has_name, lemma_ssh_origin, ssh_origin,
};
use crate::remotes::bitbucket::{bitbucket_names_step, Bitbucket, BitbucketView};
use crate::remotes::github::{github_names_step, GitHub, GitHubView};
use crate::remotes::gitlab::{
    branch_step, names_step, project_id_step, GitLab, GitLabView, Lookup,
};
use crate::requests::{pr_branch, MergeRequest, MergeRequestView};
use crate::text::{concat, is_plain, view_of};

verus! {

/// What every provider's client can be asked.
///
/// Each method takes the reply to the request that its last step asked for,
/// or `ApiEvent::Start`, and answers with the next step.
pub trait Remote {
    /// The identity under which the provider's API knows the project; empty
    /// while it is not resolved.
    spec fn identity(&self) -> Seq<char>;

    /// What the client answers when asked for its identity.
    spec fn project_id_answer(&self, event: ApiEvent) -> Outcome<Seq<char>>;

    /// What the client answers when asked for the branch of `mr_id`.
    spec fn branch_answer(&self, mr_id: int, event: ApiEvent) -> Outcome<Seq<char>>;

    /// What the client answers when asked for the open requests.
    spec fn names_answer(&self, event: ApiEvent) -> Outcome<Seq<MergeRequestView>>;

    /// The identity of the project. An answer is the identity that the
    /// client holds from then on.
    fn get_project_id(&mut self, event: ApiEvent) -> (step: Step<String>)
        ensures
            step.deep_view() == old(self).project_id_answer(event),
            step matches Step::Done(id) ==> id@ == final(self).identity(),
    ;

    /// The branch that holds the changes of the request `mr_id`.
    fn get_req_branch(&mut self, mr_id: i64, event: ApiEvent) -> (step: Step<String>)
        ensures
            step.deep_view() == old(self).branch_answer(mr_id as int, event),
    ;

    /// The open requests of the project.
    fn get_req_names(&mut self, event: ApiEvent) -> (step: Step<Vec<MergeRequest>>)
        ensures
            step.deep_view() == old(self).names_answer(event),
    ;
}

/// The client of one of the three providers.
#[derive(Clone, Debug, PartialEq, Eq)]
pub enum RemoteClient {
    GitHub(GitHub),
    GitLab(GitLab),
    Bitbucket(Bitbucket),
}

/// What a `RemoteClient` holds.
pub enum ClientView {
    GitHub(GitHubView),
    GitLab(GitLabView),
    Bitbucket(BitbucketView),
}

impl View for RemoteClient {
    type V = ClientView;

    open spec fn view(&self) -> ClientView {
        match *self {
            RemoteClient::GitHub(remote) => ClientView::GitHub(remote@),
            RemoteClient::GitLab(remote) => ClientView::GitLab(remote@),
            RemoteClient::Bitbucket(remote) => ClientView::Bitbucket(remote@),
        }
    }
}

/// What a client answers when asked for its identity.
pub open spec fn client_project_id_step(client: ClientView, event: ApiEvent) -> (
    ClientView,
    Outcome<Seq<char>>,
) {
    match client {
        ClientView::GitHub(g) => (client, Outcome::Done(g.id)),
        ClientView::GitLab(g) => {
            let next = project_id_step(g, event);
            (ClientView::GitLab(next.0), next.1)
        },
        ClientView::Bitbucket(b) => (client, Outcome::Done(b.id)),
    }
}

/// What a client answers when asked for the branch of the request `mr_id`.
pub open spec fn client_branch_step(client: ClientView, mr_id: int, event: ApiEvent) -> (
    ClientView,
    Outcome<Seq<char>>,
) {
    match client {
        ClientView::GitHub(g) => (client, Outcome::Done(pr_branch(mr_id))),
        ClientView::GitLab(g) => {
            let next = branch_step(g, mr_id, event);
            (ClientView::GitLab(next.0), next.1)
        },
        ClientView::Bitbucket(b) => (client, Outcome::Done(pr_branch(mr_id))),
    }
}

/// What a client answers when asked for the open requests.
pub open spec fn client_names_step(client: ClientView, event: ApiEvent) -> (
    ClientView,
    Outcome<Seq<MergeRequestView>>,
) {
    match client {
        ClientView::GitHub(g) => (client, github_names_step(g, event)),
        ClientView::GitLab(g) => {
            let next = names_step(g, event);
            (ClientView::GitLab(next.0), next.1)
        },
        ClientView::Bitbucket(b) => (client, bitbucket_names_step(b, event)),
    }
}

impl RemoteClient {
    /// Whether the identity of the project has yet to be resolved, and kept
    /// for the next time once it is.
    pub fn needs_project_id(&self) -> (needed: bool)
        ensures
            needed == (self@ matches ClientView::GitLab(g) && g.id.len() == 0),
    {
        match self {
            RemoteClient::GitLab(remote) => !remote.is_resolved(),
            _ => false,
        }
    }
}

impl Remote for RemoteClient {
    open spec fn identity(&self) -> Seq<char> {
        match *self {
            RemoteClient::GitHub(remote) => remote.id@,
            RemoteClient::GitLab(remote) => remote.id@,
            RemoteClient::Bitbucket(remote) => remote.id@,
        }
    }

    open spec fn project_id_answer(&self, event: ApiEvent) -> Outcome<Seq<char>> {
        client_project_id_step(self@, event).1
    }

    open spec fn branch_answer(&self, mr_id: int, event: ApiEvent) -> Outcome<Seq<char>> {
        client_branch_step(self@, mr_id, event).1
    }

    open spec fn names_answer(&self, event: ApiEvent) -> Outcome<Seq<MergeRequestView>> {
        client_names_step(self@, event).1
    }

    fn get_project_id(&mut self, event: ApiEvent) -> (step: Step<String>)
        ensures
            (final(self)@, step.deep_view()) == client_project_id_step(old(self)@, event),
    {
        match self {
            RemoteClient::GitHub(remote) => remote.get_project_id(event),
            RemoteClient::GitLab(remote) => remote.get_project_id(event),
            RemoteClient::Bitbucket(remote) => remote.get_project_id(event),
        }
    }

    fn get_req_branch(&mut self, mr_id: i64, event: ApiEvent) -> (step: Step<String>)
        ensures
            (final(self)@, step.deep_view()) == client_branch_step(
                old(self)@,
                mr_id as int,
                event,
            ),
    {
        match self {
            RemoteClient::GitHub(remote) => remote.get_req_branch(mr_id, event),
            RemoteClient::GitLab(remote) => remote.get_req_branch(mr_id, event),
            RemoteClient::Bitbucket(remote) => remote.get_req_branch(mr_id, event),
        }
    }

    fn get_req_names(&mut self, event: ApiEvent) -> (step: Step<Vec<MergeRequest>>)
        ensures
            (final(self)@, step.deep_view()) == client_names_step(old(self)@, event),
    {
        match self {
            RemoteClient::GitHub(remote) => remote.get_req_names(event),
            RemoteClient::GitLab(remote) => remote.get_req_names(event),
            RemoteClient::Bitbucket(remote) => remote.get_req_names(event),
        }
    }
}

/// The identity that was kept from an earlier resolution, where there is
/// one: an empty one counts as none.
pub open spec fn kept_id(stored: Option<Seq<char>>) -> Option<Seq<char>> {
    match stored {
        Some(id) => if id.len() > 0 {
            stored
        } else {
            None
        },
        None => None,
    }
}

/// The identity that was kept from an earlier resolution, where there is
/// one: an empty one counts as none.
pub fn load_project_id(stored: Option<String>) -> (id: Option<String>)
    ensures
        view_of(id) == kept_id(view_of(stored)),
{
    match stored {
        Some(id) => {
            if id.as_str().is_empty() {
                None
            } else {
                Some(id)
            }
        },
        None => None,
    }
}

/// The provider that a host stands for.
#[derive(Clone, Copy, Debug, PartialEq, Eq, Structural)]
pub enum Provider {
    GitHub,
    GitLab,
    Bitbucket,
}

/// The provider behind `host`: `github.com` is GitHub, `bitbucket.org` is
/// Bitbucket, and every other host a GitLab instance.
pub open spec fn provider_of(host: Seq<char>) -> Provider {
    if host == "github.com"@ {
        Provider::GitHub
    } else if host == "bitbucket.org"@ {
        Provider::Bitbucket
    } else {
        Provider::GitLab
    }
}

/// What an origin says of its project.
#[derive(Clone, Debug, PartialEq, Eq)]
pub struct OriginParts {
    pub provider: Provider,
    pub domain: String,
    pub name: String,
    pub namespace: Option<String>,
}

/// What an `OriginParts` holds.
pub struct OriginPartsView {
    pub provider: Provider,
    pub domain: Seq<char>,
    pub name: Seq<char>,
    pub namespace: Option<Seq<char>>,
}

impl View for OriginParts {
    type V = OriginPartsView;

    open spec fn view(&self) -> OriginPartsView {
        OriginPartsView {
            provider: self.provider,
            domain: self.domain@,
            name: self.name@,
            namespace: view_of(self.namespace),
        }
    }
}

impl OriginParts {
    /// Whether a client for these parts can use an identity that was kept
    /// from an earlier resolution: only GitLab's can.
    pub fn keeps_identity(&self) -> (kept: bool)
        ensures
            kept == (self.provider == Provider::GitLab),
    {
        match self.provider {
            Provider::GitLab => true,
            _ => false,
        }
    }
}

/// What `origin` says of its project, or what it lacks.
///
/// The host decides the provider. For GitHub and Bitbucket the name is the
/// path with its slashes; for GitLab it is the last segment of the path, and
/// the segment before it is the namespace, which the origin must hold.
pub open spec fn classified(origin: Seq<char>) -> Result<OriginPartsView, RemoteError> {
    match domain(origin) {
        None => Err(RemoteError::MalformedOrigin { missing: OriginPart::Domain }),
        Some(host) => match provider_of(host) {
            Provider::GitLab => match gitlab_namespace(origin) {
                None => Err(RemoteError::MalformedOrigin { missing: OriginPart::Namespace }),
                Some(namespace) => Ok(
                    OriginPartsView {
                        provider: Provider::GitLab,
                        domain: host,
                        name: gitlab_name(origin).unwrap(),
                        namespace: Some(namespace),
                    },
                ),
            },
            provider => match github_name(origin) {
                None => Err(RemoteError::MalformedOrigin { missing: OriginPart::Name }),
                Some(name) => Ok(
                    OriginPartsView { provider, domain: host, name, namespace: None },
                ),
            },
        },
    }
}

/// The root of Bitbucket's API for repositories.
pub open spec fn bitbucket_root() -> Seq<char> {
    "https://api.bitbucket.org/2.0/repositories"@
}

/// The client for the parts `parts` of the origin `origin`.
///
/// GitHub and Bitbucket know a project by its name, which is the identity.
/// GitLab's identity is the one kept from an earlier resolution, or else
/// empty, to be resolved when it is first asked for.
pub open spec fn client_for(
    parts: OriginPartsView,
    origin: Seq<char>,
    api_key: Seq<char>,
    stored: Option<Seq<char>>,
) -> ClientView {
    match parts.provider {
        Provider::GitHub => ClientView::GitHub(
            GitHubView {
                id: parts.name,
                name: parts.name,
                origin,
                api_root: "https://api.github.com/repos"@,
                api_key,
            },
        ),
        Provider::Bitbucket => ClientView::Bitbucket(
            BitbucketView {
                id: parts.name,
                domain: parts.domain,
                name: parts.name,
                origin,
                api_root: bitbucket_root(),
                api_key,
            },
        ),
        Provider::GitLab => ClientView::GitLab(
            GitLabView {
                id: match kept_id(stored) {
                    Some(id) => id,
                    None => Seq::empty(),
                },
                domain: parts.domain,
                name: parts.name,
                namespace: match parts.namespace {
                    Some(namespace) => namespace,
                    None => Seq::empty(),
                },
                origin,
                api_root: "https://"@ + parts.domain + "/api/v4"@,
                api_key,
                lookup: Lookup::Idle,
            },
        ),
    }
}

/// The client that the origin `origin` resolves into, or what the origin
/// lacks.
pub open spec fn resolved(origin: Seq<char>, api_key: Seq<char>, stored: Option<Seq<char>>)
    -> Result<ClientView, RemoteError> {
    match classified(origin) {
        Ok(parts) => Ok(client_for(parts, origin, api_key, stored)),
        Err(error) => Err(error),
    }
}

fn provider_for(host: &String) -> (provider: Provider)
    ensures
        provider == provider_of(host@),
{
    if *host == String::from_str("github.com") {
        Provider::GitHub
    } else if *host == String::from_str("bitbucket.org") {
        Provider::Bitbucket
    } else {
        Provider::GitLab
    }
}

/// Reads `origin`: its host, the provider behind the host, and the name
/// and namespace of the project in that provider's convention.
pub fn classify(origin: &str) -> (parts: Result<OriginParts, RemoteError>)
    ensures
        match parts {
            Ok(found) => classified(origin@) == Ok::<OriginPartsView, RemoteError>(found@),
            Err(error) => classified(origin@) == Err::<OriginPartsView, RemoteError>(error),
        },
{
    let host: String = match get_domain(origin) {
        Ok(host) => host,
        Err(error) => {
            return Err(error);
        },
    };
    match provider_for(&host) {
        Provider::GitLab => {
            let namespace: String = match get_gitlab_project_namespace(origin) {
                Some(namespace) => namespace,
                None => {
                    return Err(RemoteError::MalformedOrigin { missing: OriginPart::Namespace });
                },
            };
            match get_gitlab_project_name(origin) {
                Some(name) => Ok(
                    OriginParts {
                        provider: Provider::GitLab,
                        domain: host,
                        name,
                        namespace: Some(namespace),
                    },
                ),
                None => {
                    proof {
                        lemma_namespace_has_name(origin@);
                    }
                    Err(RemoteError::MalformedOrigin { missing: OriginPart::Name })
                },
            }
        },
        provider => match get_github_project_name(origin) {
            Some(name) => Ok(OriginParts { provider, domain: host, name, namespace: None }),
            None => Err(RemoteError::MalformedOrigin { missing: OriginPart::Name }),
        },
    }
}

/// Resolves `origin` into the client of its provider, with the credential
/// `api_key` and the identity `stored` that was kept for the repository, if
/// any.
pub fn get_remote(origin: &str, api_key: String, stored: Option<String>) -> (remote: Result<
    RemoteClient,
    RemoteError,
>)
    ensures
        match remote {
            Ok(client) => resolved(origin@, api_key@, view_of(stored)) == Ok::<
                ClientView,
                RemoteError,
            >(client@),
            Err(error) => resolved(origin@, api_key@, view_of(stored)) == Err::<
                ClientView,
                RemoteError,
            >(error),
        },
{
    let parts: OriginParts = match classify(origin) {
        Ok(parts) => parts,
        Err(error) => {
            return Err(error);
        },
    };
    match parts.provider {
        Provider::GitHub => Ok(
            RemoteClient::GitHub(
                GitHub {
                    id: parts.name.clone(),
                    name: parts.name,
                    origin: String::from_str(origin),
                    api_root: String::from_str("https://api.github.com/repos"),
                    api_key,
                },
            ),
        ),
        Provider::Bitbucket => Ok(
            RemoteClient::Bitbucket(
                Bitbucket {
                    id: parts.name.clone(),
                    domain: parts.domain,
                    name: parts.name,
                    origin: String::from_str(origin),
                    api_root: String::from_str("https://api.bitbucket.org/2.0/repositories"),
                    api_key,
                },
            ),
        ),
        Provider::GitLab => {
            let id: String = match load_project_id(stored) {
                Some(id) => id,
                None => String::new(),
            };
            let namespace: String = match parts.namespace {
                Some(namespace) => namespace,
                None => String::new(),
            };
            let mut api_root: String = concat("https://", parts.domain.as_str());
            api_root.append("/api/v4");
            Ok(
                RemoteClient::GitLab(
                    GitLab {
                        id,
                        domain: parts.domain,
                        name: parts.name,
                        namespace,
                        origin: String::from_str(origin),
                        api_root,
                        api_key,
                        lookup: Lookup::Idle,
                    },
                ),
            )
        },
    }
}

/// An origin whose host is `bitbucket.org` resolves into a Bitbucket
/// client, whatever credential and kept identity; its identity is the name,
/// so that asking for it takes no request.
pub proof fn lemma_bitbucket_resolves(
    origin: Seq<char>,
    api_key: Seq<char>,
    stored: Option<Seq<char>>,
    event: ApiEvent,
)
    requires
        domain(origin) == Some("bitbucket.org"@),
        github_name(origin) is Some,
    ensures
        resolved(origin, api_key, stored) matches Ok(ClientView::Bitbucket(b)) && b.id
            == github_name(origin).unwrap() && b.name == b.id && b.api_key == api_key
            && client_project_id_step(ClientView::Bitbucket(b), event).1 == Outcome::<
            Seq<char>,
        >::Done(b.id),
{
    reveal_strlit("bitbucket.org");
    reveal_strlit("github.com");
    assert("bitbucket.org"@.len() != "github.com"@.len());
}

/// `github.com` and `bitbucket.org` are well-formed hosts, and different
/// ones.
pub proof fn lemma_provider_hosts()
    ensures
        is_label("github.com"@),
        is_label("bitbucket.org"@),
        provider_of("github.com"@) == Provider::GitHub,
        provider_of("bitbucket.org"@) == Provider::Bitbucket,
{
    reveal_strlit("github.com");
    reveal_strlit("bitbucket.org");
    let github = "github.com"@;
    let bitbucket = "bitbucket.org"@;
    assert(github.len() == 10 && bitbucket.len() == 13);
    assert forall|i: int| 0 <= i < github.len() implies is_plain(#[trigger] github[i]) by {
        assert(i == 0 || i == 1 || i == 2 || i == 3 || i == 4 || i == 5 || i == 6 || i == 7 || i
            == 8 || i == 9);
    }
    assert forall|i: int| 0 <= i < bitbucket.len() implies is_plain(#[trigger] bitbucket[i]) by {
        assert(i == 0 || i == 1 || i == 2 || i == 3 || i == 4 || i == 5 || i == 6 || i == 7 || i
            == 8 || i == 9 || i == 10 || i == 11 || i == 12);
    }
}

/// A well-formed origin on `github.com` or `bitbucket.org`, in either form,
/// resolves into the client of that provider, whose identity is
/// `<namespace>/<name>`; a well-formed origin on any other host resolves
/// into a GitLab client with that namespace and that name.
pub proof fn lemma_well_formed_resolves(
    host: Seq<char>,
    namespace: Seq<char>,
    name: Seq<char>,
    api_key: Seq<char>,
    stored: Option<Seq<char>>,
)
    requires
        is_label(host),
        is_label(namespace),
        is_label(name),
    ensures
        ({
            let ssh = resolved(ssh_origin(host, namespace, name), api_key, stored);
            let https = resolved(https_origin(host, namespace, name), api_key, stored);
            let path = namespace + seq!['/'] + name;
            &&& ssh is Ok
            &&& https is Ok
            &&& provider_of(host) == Provider::GitHub ==> (ssh.unwrap() matches ClientView::GitHub(
                g,
            ) && g.id == path && g.name == path) && (https.unwrap() matches ClientView::GitHub(g)
                && g.id == path && g.name == path)
            &&& provider_of(host) == Provider::Bitbucket ==> (
            ssh.unwrap() matches ClientView::Bitbucket(b) && b.id == path && b.name == path
                && b.domain == host) && (https.unwrap() matches ClientView::Bitbucket(b) && b.id
                == path && b.name == path && b.domain == host)
            &&& provider_of(host) == Provider::GitLab ==> (ssh.unwrap() matches ClientView::GitLab(
                g,
            ) && g.namespace == namespace && g.name == name && g.domain == host) && (
            https.unwrap() matches ClientView::GitLab(g) && g.namespace == namespace && g.name
                == name && g.domain == host)
        }),
{
    lemma_ssh_origin(host, namespace, name);
    lemma_https_origin(host, namespace, name);
}

} // verus!

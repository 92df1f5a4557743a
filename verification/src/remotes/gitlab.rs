//! The client of a project on a GitLab instance, and how it resolves the
//! identity of its project.
//!
//! GitLab knows a project by a number. The client first asks for the project
//! by its path. Where that is refused it asks for the namespace, then for
//! the projects of that user or group, and takes the first one with exactly
//! the project's name.

use vstd::prelude::*;
use crate::error::RemoteError;
use crate::exchange::{
    api_request, ApiEvent, ApiRequest, ApiRequestView, Outcome, Payload, Shape, Step,
};
use crate::payload::{GitLabNamespace, GitLabProject};
use crate::remotes::Remote;
use crate::requests::{gitlab_mrs, gitlab_requests, MergeRequest, MergeRequestView};
use crate::text::{concat, decimal, decimal_string, lemma_decimal_nonempty};

verus! {

/// Which reply a GitLab client waits for while it resolves its identity.
#[derive(Clone, Copy, Debug, PartialEq, Eq, Structural)]
pub enum Lookup {
    /// None: no request is under way.
    Idle,
    /// The project, asked for by its path.
    Direct,
    /// The namespace of the project.
    Namespace,
    /// The projects of the namespace.
    Search,
}

/// A project on a GitLab instance.
#[derive(Clone, Debug, PartialEq, Eq)]
pub struct GitLab {
    pub id: String,
    pub domain: String,
    pub name: String,
    pub namespace: String,
    pub origin: String,
    pub api_root: String,
    pub api_key: String,
    pub lookup: Lookup,
}

/// What a `GitLab` holds.
pub struct GitLabView {
    pub id: Seq<char>,
    pub domain: Seq<char>,
    pub name: Seq<char>,
    pub namespace: Seq<char>,
    pub origin: Seq<char>,
    pub api_root: Seq<char>,
    pub api_key: Seq<char>,
    pub lookup: Lookup,
}

impl View for GitLab {
    type V = GitLabView;

    open spec fn view(&self) -> GitLabView {
        GitLabView {
            id: self.id@,
            domain: self.domain@,
            name: self.name@,
            namespace: self.namespace@,
            origin: self.origin@,
            api_root: self.api_root@,
            api_key: self.api_key@,
            lookup: self.lookup,
        }
    }
}

/// The header that carries the credential to GitLab.
pub open spec fn gitlab_request(g: GitLabView, url: Seq<char>, expect: Shape) -> ApiRequestView {
    ApiRequestView { url, header: "PRIVATE-TOKEN"@, value: g.api_key, expect }
}

/// The request for the project by its path: namespace and name, with the
/// slash between them percent-encoded.
pub open spec fn project_request(g: GitLabView) -> ApiRequestView {
    gitlab_request(g, g.api_root + "/projects/"@ + g.namespace + "%2F"@ + g.name, Shape::Project)
}

/// The request for the namespace of the project.
pub open spec fn namespace_request(g: GitLabView) -> ApiRequestView {
    gitlab_request(g, g.api_root + "/namespaces/"@ + g.namespace, Shape::Namespace)
}

/// The request for every project of the user whose namespace has the id
/// `namespace_id`.
pub open spec fn user_projects_request(g: GitLabView, namespace_id: int) -> ApiRequestView {
    gitlab_request(
        g,
        g.api_root + "/users/"@ + decimal(namespace_id) + "/projects"@,
        Shape::Projects,
    )
}

/// The request for the projects of the group whose namespace has the id
/// `namespace_id`, searched by the project's name.
pub open spec fn group_projects_request(g: GitLabView, namespace_id: int) -> ApiRequestView {
    gitlab_request(
        g,
        g.api_root + "/groups/"@ + decimal(namespace_id) + "/projects?search="@ + g.name,
        Shape::Projects,
    )
}

/// The request for the open merge requests of the project.
pub open spec fn merge_requests_request(g: GitLabView) -> ApiRequestView {
    gitlab_request(
        g,
        g.api_root + "/projects/"@ + g.id + "/merge_requests?state=opened"@,
        Shape::MergeRequests,
    )
}

/// The request for the merge request `mr_id` of the project.
pub open spec fn merge_request_request(g: GitLabView, mr_id: int) -> ApiRequestView {
    gitlab_request(
        g,
        g.api_root + "/projects/"@ + g.id + "/merge_requests/"@ + decimal(mr_id),
        Shape::MergeRequest,
    )
}

/// The id of the first project from index `from` on whose name is exactly
/// `name`.
pub open spec fn first_named(projects: Seq<GitLabProject>, name: Seq<char>, from: int) -> Option<
    int,
>
    decreases projects.len() - from,
{
    if from >= projects.len() {
        None
    } else if 0 <= from && projects[from].name@ == name {
        Some(projects[from].id as int)
    } else {
        first_named(projects, name, from + 1)
    }
}

/// The lookup starts over: the client asks for the project by its path.
pub open spec fn restart(g: GitLabView) -> (GitLabView, Outcome<Seq<char>>) {
    (GitLabView { lookup: Lookup::Direct, ..g }, Outcome::Fetch(project_request(g)))
}

/// The lookup ends with the identity `id`, which the client keeps.
pub open spec fn settle(g: GitLabView, id: Seq<char>) -> (GitLabView, Outcome<Seq<char>>) {
    (GitLabView { id, lookup: Lookup::Idle, ..g }, Outcome::Done(id))
}

/// The lookup ends with the failure `error`.
pub open spec fn give_up(g: GitLabView, error: RemoteError) -> (GitLabView, Outcome<Seq<char>>) {
    (GitLabView { lookup: Lookup::Idle, ..g }, Outcome::Failed(error))
}

/// The step after the project was asked for by its path. A response without
/// success is no failure: the client goes on to ask for the namespace. A
/// response with success holds the project, whose id is the identity.
pub open spec fn direct_step(g: GitLabView, event: ApiEvent) -> (GitLabView, Outcome<Seq<char>>) {
    match event {
        ApiEvent::Start => restart(g),
        ApiEvent::TransportFailure => give_up(g, RemoteError::TransportFailure),
        ApiEvent::Response { success, body } => if !success {
            (GitLabView { lookup: Lookup::Namespace, ..g }, Outcome::Fetch(namespace_request(g)))
        } else {
            match body {
                Some(Payload::Project(project)) => settle(g, decimal(project.id as int)),
                _ => give_up(g, RemoteError::UnexpectedResponseShape),
            }
        },
    }
}

/// The step after the namespace was asked for. A user's projects are all
/// listed, a group's are searched by name; a namespace that is not known,
/// or of another kind, cannot be resolved.
pub open spec fn namespace_step(g: GitLabView, success: bool, body: Option<Payload>) -> (
    GitLabView,
    Outcome<Seq<char>>,
) {
    if !success {
        give_up(g, RemoteError::UnresolvableNamespace)
    } else {
        match body {
            Some(Payload::Namespace(namespace)) => if namespace.kind@ == "user"@ {
                (
                    GitLabView { lookup: Lookup::Search, ..g },
                    Outcome::Fetch(user_projects_request(g, namespace.id as int)),
                )
            } else if namespace.kind@ == "group"@ {
                (
                    GitLabView { lookup: Lookup::Search, ..g },
                    Outcome::Fetch(group_projects_request(g, namespace.id as int)),
                )
            } else {
                give_up(g, RemoteError::UnresolvableNamespace)
            },
            _ => give_up(g, RemoteError::UnexpectedResponseShape),
        }
    }
}

/// The step after the projects of the namespace were asked for: the first
/// project in the list whose name is exactly the project's name gives the
/// identity. The status of the response is not looked at.
pub open spec fn projects_step(g: GitLabView, body: Option<Payload>) -> (
    GitLabView,
    Outcome<Seq<char>>,
) {
    match body {
        Some(Payload::Projects(projects)) => match first_named(projects@, g.name, 0) {
            Some(id) => settle(g, decimal(id)),
            None => give_up(g, RemoteError::ProjectNotFound),
        },
        _ => give_up(g, RemoteError::UnexpectedResponseShape),
    }
}

/// The steps of the search that follows a failed lookup by path.
pub open spec fn search_step(g: GitLabView, event: ApiEvent) -> (GitLabView, Outcome<Seq<char>>) {
    match event {
        ApiEvent::Start => restart(g),
        ApiEvent::TransportFailure => give_up(g, RemoteError::TransportFailure),
        ApiEvent::Response { success, body } => if g.lookup == Lookup::Namespace {
            namespace_step(g, success, body)
        } else {
            projects_step(g, body)
        },
    }
}

/// What a GitLab client answers when asked for its identity: the one it
/// holds, or else the next step of the lookup.
pub open spec fn project_id_step(g: GitLabView, event: ApiEvent) -> (
    GitLabView,
    Outcome<Seq<char>>,
) {
    if g.id.len() > 0 {
        (g, Outcome::Done(g.id))
    } else {
        match g.lookup {
            Lookup::Idle => restart(g),
            Lookup::Direct => direct_step(g, event),
            _ => search_step(g, event),
        }
    }
}

/// What a client that holds its identity answers when asked for the branch
/// of the merge request `mr_id`: it asks for the merge request, and names
/// the source branch of the one that comes back. The status of the response
/// is not looked at.
pub open spec fn merge_request_step(g: GitLabView, mr_id: int, event: ApiEvent) -> Outcome<
    Seq<char>,
> {
    match event {
        ApiEvent::Start => Outcome::Fetch(merge_request_request(g, mr_id)),
        ApiEvent::TransportFailure => Outcome::Failed(RemoteError::TransportFailure),
        ApiEvent::Response { success, body } => match body {
            Some(Payload::MergeRequest(request)) => Outcome::Done(request.source_branch@),
            _ => Outcome::Failed(RemoteError::UnexpectedResponseShape),
        },
    }
}

/// What a client that holds its identity answers when asked for the open
/// requests: it asks for the list, and brings the list that comes back into
/// the common model. The status of the response is not looked at.
pub open spec fn merge_requests_step(g: GitLabView, event: ApiEvent) -> Outcome<
    Seq<MergeRequestView>,
> {
    match event {
        ApiEvent::Start => Outcome::Fetch(merge_requests_request(g)),
        ApiEvent::TransportFailure => Outcome::Failed(RemoteError::TransportFailure),
        ApiEvent::Response { success, body } => match body {
            Some(Payload::MergeRequests(requests)) => Outcome::Done(gitlab_mrs(requests@)),
            _ => Outcome::Failed(RemoteError::UnexpectedResponseShape),
        },
    }
}

/// What a GitLab client answers when asked for the branch of the merge
/// request `mr_id`. While it holds no identity it resolves that first, and
/// asks for the merge request as soon as it has one.
pub open spec fn branch_step(g: GitLabView, mr_id: int, event: ApiEvent) -> (
    GitLabView,
    Outcome<Seq<char>>,
) {
    if g.id.len() == 0 {
        let next = project_id_step(g, event);
        match next.1 {
            Outcome::Done(id) => (next.0, Outcome::Fetch(merge_request_request(next.0, mr_id))),
            Outcome::Fetch(request) => (next.0, Outcome::Fetch(request)),
            Outcome::Failed(error) => (next.0, Outcome::Failed(error)),
        }
    } else {
        (g, merge_request_step(g, mr_id, event))
    }
}

/// What a GitLab client answers when asked for the open requests. While it
/// holds no identity it resolves that first, and asks for the list as soon
/// as it has one.
pub open spec fn names_step(g: GitLabView, event: ApiEvent) -> (
    GitLabView,
    Outcome<Seq<MergeRequestView>>,
) {
    if g.id.len() == 0 {
        let next = project_id_step(g, event);
        match next.1 {
            Outcome::Done(id) => (next.0, Outcome::Fetch(merge_requests_request(next.0))),
            Outcome::Fetch(request) => (next.0, Outcome::Fetch(request)),
            Outcome::Failed(error) => (next.0, Outcome::Failed(error)),
        }
    } else {
        (g, merge_requests_step(g, event))
    }
}

/// The GET request for `url` that carries `token` the way GitLab wants it.
pub fn query_gitlab_api(url: String, token: &str, expect: Shape) -> (request: ApiRequest)
    ensures
        request@ == (ApiRequestView { url: url@, header: "PRIVATE-TOKEN"@, value: token@, expect }),
{
    api_request(url, "PRIVATE-TOKEN", String::from_str(token), expect)
}

fn gitlab_get(remote: &GitLab, url: String, expect: Shape) -> (request: ApiRequest)
    ensures
        request@ == gitlab_request(remote@, url@, expect),
{
    query_gitlab_api(url, remote.api_key.as_str(), expect)
}

fn project_lookup(remote: &GitLab) -> (request: ApiRequest)
    ensures
        request@ == project_request(remote@),
{
    let mut url: String = concat(remote.api_root.as_str(), "/projects/");
    url.append(remote.namespace.as_str());
    url.append("%2F");
    url.append(remote.name.as_str());
    gitlab_get(remote, url, Shape::Project)
}

fn namespace_lookup(remote: &GitLab) -> (request: ApiRequest)
    ensures
        request@ == namespace_request(remote@),
{
    let mut url: String = concat(remote.api_root.as_str(), "/namespaces/");
    url.append(remote.namespace.as_str());
    gitlab_get(remote, url, Shape::Namespace)
}

fn user_projects(remote: &GitLab, namespace_id: i64) -> (request: ApiRequest)
    ensures
        request@ == user_projects_request(remote@, namespace_id as int),
{
    let mut url: String = concat(remote.api_root.as_str(), "/users/");
    url.append(decimal_string(namespace_id).as_str());
    url.append("/projects");
    gitlab_get(remote, url, Shape::Projects)
}

fn group_projects(remote: &GitLab, namespace_id: i64) -> (request: ApiRequest)
    ensures
        request@ == group_projects_request(remote@, namespace_id as int),
{
    let mut url: String = concat(remote.api_root.as_str(), "/groups/");
    url.append(decimal_string(namespace_id).as_str());
    url.append("/projects?search=");
    url.append(remote.name.as_str());
    gitlab_get(remote, url, Shape::Projects)
}

fn merge_requests(remote: &GitLab) -> (request: ApiRequest)
    ensures
        request@ == merge_requests_request(remote@),
{
    let mut url: String = concat(remote.api_root.as_str(), "/projects/");
    url.append(remote.id.as_str());
    url.append("/merge_requests?state=opened");
    gitlab_get(remote, url, Shape::MergeRequests)
}

fn merge_request(remote: &GitLab, mr_id: i64) -> (request: ApiRequest)
    ensures
        request@ == merge_request_request(remote@, mr_id as int),
{
    let mut url: String = concat(remote.api_root.as_str(), "/projects/");
    url.append(remote.id.as_str());
    url.append("/merge_requests/");
    url.append(decimal_string(mr_id).as_str());
    gitlab_get(remote, url, Shape::MergeRequest)
}

/// The id of the first project in `projects` whose name is exactly `name`.
pub fn find_project(projects: &Vec<GitLabProject>, name: &String) -> (id: Option<i64>)
    ensures
        match id {
            Some(found) => first_named(projects@, name@, 0) == Some(found as int),
            None => first_named(projects@, name@, 0) is None,
        },
{
    let mut k: usize = 0;
    while k < projects.len()
        invariant
            k <= projects.len(),
            first_named(projects@, name@, 0) == first_named(projects@, name@, k as int),
        decreases projects.len() - k,
    {
        if projects[k].name == *name {
            return Some(projects[k].id);
        }
        k = k + 1;
    }
    None
}

fn restart_lookup(remote: &mut GitLab) -> (step: Step<String>)
    ensures
        (final(remote)@, step.deep_view()) == restart(old(remote)@),
{
    let request = project_lookup(remote);
    remote.lookup = Lookup::Direct;
    Step::Fetch(request)
}

fn settle_lookup(remote: &mut GitLab, id: String) -> (step: Step<String>)
    ensures
        (final(remote)@, step.deep_view()) == settle(old(remote)@, id@),
{
    remote.id = id.clone();
    remote.lookup = Lookup::Idle;
    Step::Done(id)
}

fn abandon_lookup(remote: &mut GitLab, error: RemoteError) -> (step: Step<String>)
    ensures
        (final(remote)@, step.deep_view()) == give_up(old(remote)@, error),
{
    remote.lookup = Lookup::Idle;
    Step::Failed(error)
}

/// Takes the reply to the request for the project by its path.
///
/// A response without success sends the client on to the search, starting
/// with the namespace; it is not a failure.
pub fn query_gitlab_project_id(remote: &mut GitLab, event: ApiEvent) -> (step: Step<String>)
    ensures
        (final(remote)@, step.deep_view()) == direct_step(old(remote)@, event),
{
    match event {
        ApiEvent::Start => restart_lookup(remote),
        ApiEvent::TransportFailure => abandon_lookup(remote, RemoteError::TransportFailure),
        ApiEvent::Response { success, body } => {
            if !success {
                let request = namespace_lookup(remote);
                remote.lookup = Lookup::Namespace;
                Step::Fetch(request)
            } else {
                match body {
                    Some(Payload::Project(project)) => settle_lookup(
                        remote,
                        decimal_string(project.id),
                    ),
                    _ => abandon_lookup(remote, RemoteError::UnexpectedResponseShape),
                }
            }
        },
    }
}

/// Takes the replies of the search for the project: first the namespace,
/// then the projects in it.
pub fn search_gitlab_project_id(remote: &mut GitLab, event: ApiEvent) -> (step: Step<String>)
    ensures
        (final(remote)@, step.deep_view()) == search_step(old(remote)@, event),
{
    match event {
        ApiEvent::Start => restart_lookup(remote),
        ApiEvent::TransportFailure => abandon_lookup(remote, RemoteError::TransportFailure),
        ApiEvent::Response { success, body } => {
            if remote.lookup == Lookup::Namespace {
                if !success {
                    return abandon_lookup(remote, RemoteError::UnresolvableNamespace);
                }
                match body {
                    Some(Payload::Namespace(namespace)) => {
                        if namespace.kind == String::from_str("user") {
                            let request = user_projects(remote, namespace.id);
                            remote.lookup = Lookup::Search;
                            Step::Fetch(request)
                        } else if namespace.kind == String::from_str("group") {
                            let request = group_projects(remote, namespace.id);
                            remote.lookup = Lookup::Search;
                            Step::Fetch(request)
                        } else {
                            abandon_lookup(remote, RemoteError::UnresolvableNamespace)
                        }
                    },
                    _ => abandon_lookup(remote, RemoteError::UnexpectedResponseShape),
                }
            } else {
                match body {
                    Some(Payload::Projects(projects)) => match find_project(
                        &projects,
                        &remote.name,
                    ) {
                        Some(id) => settle_lookup(remote, decimal_string(id)),
                        None => abandon_lookup(remote, RemoteError::ProjectNotFound),
                    },
                    _ => abandon_lookup(remote, RemoteError::UnexpectedResponseShape),
                }
            }
        },
    }
}

/// The next step towards the branch of the merge request `mr_id`, for a
/// client that holds its identity.
pub fn query_gitlab_branch_name(remote: &GitLab, mr_id: i64, event: ApiEvent) -> (step: Step<
    String,
>)
    ensures
        step.deep_view() == merge_request_step(remote@, mr_id as int, event),
{
    match event {
        ApiEvent::Start => Step::Fetch(merge_request(remote, mr_id)),
        ApiEvent::TransportFailure => Step::Failed(RemoteError::TransportFailure),
        ApiEvent::Response { success, body } => match body {
            Some(Payload::MergeRequest(request)) => Step::Done(request.source_branch),
            _ => Step::Failed(RemoteError::UnexpectedResponseShape),
        },
    }
}

/// The next step towards the open merge requests, for a client that holds
/// its identity.
pub fn retrieve_gitlab_project_merge_requests(remote: &GitLab, event: ApiEvent) -> (step: Step<
    Vec<MergeRequest>,
>)
    ensures
        step.deep_view() == merge_requests_step(remote@, event),
{
    match event {
        ApiEvent::Start => Step::Fetch(merge_requests(remote)),
        ApiEvent::TransportFailure => Step::Failed(RemoteError::TransportFailure),
        ApiEvent::Response { success, body } => match body {
            Some(Payload::MergeRequests(requests)) => Step::Done(gitlab_requests(requests)),
            _ => Step::Failed(RemoteError::UnexpectedResponseShape),
        },
    }
}

impl GitLab {
    /// Whether the client holds the identity of its project.
    pub fn is_resolved(&self) -> (resolved: bool)
        ensures
            resolved == (self.id@.len() > 0),
    {
        !self.id.as_str().is_empty()
    }
}

impl Remote for GitLab {
    open spec fn identity(&self) -> Seq<char> {
        self.id@
    }

    open spec fn project_id_answer(&self, event: ApiEvent) -> Outcome<Seq<char>> {
        project_id_step(self@, event).1
    }

    open spec fn branch_answer(&self, mr_id: int, event: ApiEvent) -> Outcome<Seq<char>> {
        branch_step(self@, mr_id, event).1
    }

    open spec fn names_answer(&self, event: ApiEvent) -> Outcome<Seq<MergeRequestView>> {
        names_step(self@, event).1
    }

    fn get_project_id(&mut self, event: ApiEvent) -> (step: Step<String>)
        ensures
            (final(self)@, step.deep_view()) == project_id_step(old(self)@, event),
    {
        if self.is_resolved() {
            Step::Done(self.id.clone())
        } else {
            match self.lookup {
                Lookup::Idle => restart_lookup(self),
                Lookup::Direct => query_gitlab_project_id(self, event),
                _ => search_gitlab_project_id(self, event),
            }
        }
    }

    fn get_req_branch(&mut self, mr_id: i64, event: ApiEvent) -> (step: Step<String>)
        ensures
            (final(self)@, step.deep_view()) == branch_step(old(self)@, mr_id as int, event),
    {
        if !self.is_resolved() {
            match self.get_project_id(event) {
                Step::Done(id) => Step::Fetch(merge_request(self, mr_id)),
                Step::Fetch(request) => Step::Fetch(request),
                Step::Failed(error) => Step::Failed(error),
            }
        } else {
            query_gitlab_branch_name(self, mr_id, event)
        }
    }

    fn get_req_names(&mut self, event: ApiEvent) -> (step: Step<Vec<MergeRequest>>)
        ensures
            (final(self)@, step.deep_view()) == names_step(old(self)@, event),
    {
        if !self.is_resolved() {
            match self.get_project_id(event) {
                Step::Done(id) => Step::Fetch(merge_requests(self)),
                Step::Fetch(request) => Step::Fetch(request),
                Step::Failed(error) => Step::Failed(error),
            }
        } else {
            retrieve_gitlab_project_merge_requests(self, event)
        }
    }
}

/// The first project with the name, with none before it from `from` on, is
/// the one that `first_named` finds.
pub proof fn lemma_first_named(projects: Seq<GitLabProject>, name: Seq<char>, from: int, i: int)
    requires
        0 <= from <= i < projects.len(),
        projects[i].name@ == name,
        forall|j: int| from <= j < i ==> (#[trigger] projects[j]).name@ != name,
    ensures
        first_named(projects, name, from) == Some(projects[i].id as int),
    decreases i - from,
{
    if from < i {
        lemma_first_named(projects, name, from + 1, i);
    }
}

/// Where no project from `from` on has the name, `first_named` finds none.
pub proof fn lemma_first_named_none(projects: Seq<GitLabProject>, name: Seq<char>, from: int)
    requires
        0 <= from,
        forall|j: int| from <= j < projects.len() ==> (#[trigger] projects[j]).name@ != name,
    ensures
        first_named(projects, name, from) is None,
    decreases projects.len() - from,
{
    if from < projects.len() {
        lemma_first_named_none(projects, name, from + 1);
    }
}

/// A client that holds no identity asks for the project by its path; a
/// response with success then ends the lookup at once, with the decimal id
/// of the project in it, which the client keeps. No other request is made.
pub proof fn lemma_direct_lookup(g: GitLabView, project: GitLabProject)
    requires
        g.id.len() == 0,
        g.lookup == Lookup::Idle,
    ensures
        ({
            let first = project_id_step(g, ApiEvent::Start);
            let second = project_id_step(
                first.0,
                ApiEvent::Response { success: true, body: Some(Payload::Project(project)) },
            );
            &&& first.1 == Outcome::<Seq<char>>::Fetch(project_request(g))
            &&& second.1 == Outcome::Done(decimal(project.id as int))
            &&& second.0 == (GitLabView { id: decimal(project.id as int), ..g })
        }),
{
}

/// After a lookup by path without success, whatever the body, the client
/// asks for the namespace; for a group it then searches the group's projects
/// by name. The first project in the list with exactly the client's name
/// gives the identity; where there is none, the lookup fails with
/// `ProjectNotFound`.
pub proof fn lemma_group_search(
    g: GitLabView,
    refusal: Option<Payload>,
    namespace: GitLabNamespace,
    success: bool,
    projects: Vec<GitLabProject>,
)
    requires
        g.id.len() == 0,
        g.lookup == Lookup::Idle,
        namespace.kind@ == "group"@,
    ensures
        ({
            let first = project_id_step(g, ApiEvent::Start);
            let second = project_id_step(
                first.0,
                ApiEvent::Response { success: false, body: refusal },
            );
            let third = project_id_step(
                second.0,
                ApiEvent::Response { success: true, body: Some(Payload::Namespace(namespace)) },
            );
            let fourth = project_id_step(
                third.0,
                ApiEvent::Response { success, body: Some(Payload::Projects(projects)) },
            );
            &&& second.1 == Outcome::<Seq<char>>::Fetch(namespace_request(g))
            &&& third.1 == Outcome::<Seq<char>>::Fetch(
                group_projects_request(g, namespace.id as int),
            )
            &&& forall|i: int|
                0 <= i < projects.len() && (#[trigger] projects[i]).name@ == g.name && (forall|
                    j: int,
                |
                    0 <= j < i ==> (#[trigger] projects[j]).name@ != g.name) ==> fourth.1
                    == Outcome::Done(decimal(projects[i].id as int)) && fourth.0 == (GitLabView {
                    id: decimal(projects[i].id as int),
                    ..g
                })
            &&& (forall|i: int| 0 <= i < projects.len() ==> (#[trigger] projects[i]).name@ != g.name)
                ==> fourth.1 == Outcome::<Seq<char>>::Failed(RemoteError::ProjectNotFound)
        }),
{
    reveal_strlit("group");
    reveal_strlit("user");
    assert("group"@.len() != "user"@.len());
    assert forall|i: int|
        0 <= i < projects.len() && (#[trigger] projects[i]).name@ == g.name && (forall|j: int|
            0 <= j < i ==> (#[trigger] projects[j]).name@ != g.name) implies first_named(
        projects@,
        g.name,
        0,
    ) == Some(projects[i].id as int) by {
        lemma_first_named(projects@, g.name, 0, i);
    }
    if forall|i: int| 0 <= i < projects.len() ==> (#[trigger] projects[i]).name@ != g.name {
        lemma_first_named_none(projects@, g.name, 0);
    }
}

/// Every request of a GitLab client carries the client's credential, and the
/// client asks for merge requests only once it holds an identity, under
/// which it then asks.
pub proof fn lemma_identity_before_requests(g: GitLabView, mr_id: int, event: ApiEvent)
    ensures
        project_id_step(g, event).1 matches Outcome::Fetch(request) ==> request.value == g.api_key
            && request.header == "PRIVATE-TOKEN"@,
        names_step(g, event).1 matches Outcome::Fetch(request) ==> request.value == g.api_key && (
        request.expect == Shape::MergeRequests ==> names_step(g, event).0.id.len() > 0 && request
            == merge_requests_request(names_step(g, event).0)),
        branch_step(g, mr_id, event).1 matches Outcome::Fetch(request) ==> request.value
            == g.api_key && (request.expect == Shape::MergeRequest ==> branch_step(
            g,
            mr_id,
            event,
        ).0.id.len() > 0 && request == merge_request_request(branch_step(g, mr_id, event).0, mr_id)),
{
    let next = project_id_step(g, event);
    match next.1 {
        Outcome::Done(id) => {
            if g.id.len() == 0 {
                match event {
                    ApiEvent::Response { success, body } => {
                        match body {
                            Some(Payload::Project(project)) => {
                                lemma_decimal_nonempty(project.id as int);
                            },
                            Some(Payload::Projects(projects)) => {
                                match first_named(projects@, g.name, 0) {
                                    Some(found) => {
                                        lemma_decimal_nonempty(found);
                                    },
                                    None => {},
                                }
                            },
                            _ => {},
                        }
                    },
                    _ => {},
                }
            }
        },
        _ => {},
    }
}

} // verus!

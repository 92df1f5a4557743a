//! The failures that resolving and querying a remote can end in.

use vstd::prelude::*;

verus! {

/// A part of an origin URL.
#[derive(Clone, Copy, Debug, PartialEq, Eq, Structural)]
pub enum OriginPart {
    /// The host that the repository lives on.
    Domain,
    /// The group or user that owns the project.
    Namespace,
    /// The name of the project.
    Name,
}

/// Why a remote could not be resolved or queried.
#[derive(Clone, Copy, Debug, PartialEq, Eq, Structural)]
pub enum RemoteError {
    /// The origin URL lacks the named part.
    MalformedOrigin { missing: OriginPart },
    /// A request could not be sent, or no response came back.
    TransportFailure,
    /// A response body did not have the shape that the request called for.
    UnexpectedResponseShape,
    /// GitLab does not know the namespace, or it is neither a user nor a
    /// group.
    UnresolvableNamespace,
    /// No project of the namespace carries the project's name.
    ProjectNotFound,
}

impl RemoteError {
    /// The text that a command line shows for this failure.
    pub open spec fn spec_message(self) -> Seq<char> {
        match self {
            RemoteError::MalformedOrigin { missing: OriginPart::Domain } => "invalid remote set"@,
            RemoteError::MalformedOrigin { missing: OriginPart::Namespace } =>
                "Could not parse the GitLab project namespace from the origin."@,
            RemoteError::MalformedOrigin { missing: OriginPart::Name } =>
                "Could not parse the project name from the origin."@,
            RemoteError::TransportFailure => "failed to send request"@,
            RemoteError::UnexpectedResponseShape => "failed to read response"@,
            RemoteError::UnresolvableNamespace | RemoteError::ProjectNotFound =>
                "Unable to get the project ID from the GitLab API.\nFind and configure your project ID using the instructions at: https://github.com/arusahni/git-req/wiki/Finding-Project-IDs"@,
        }
    }

    /// The text that a command line shows for this failure. A namespace that
    /// cannot be resolved and a project that cannot be found both point the
    /// user at configuring the identity by hand.
    pub fn message(&self) -> (text: String)
        ensures
            text@ == self.spec_message(),
    {
        match self {
            RemoteError::MalformedOrigin { missing: OriginPart::Domain } => String::from_str(
                "invalid remote set",
            ),
            RemoteError::MalformedOrigin { missing: OriginPart::Namespace } => String::from_str(
                "Could not parse the GitLab project namespace from the origin.",
            ),
            RemoteError::MalformedOrigin { missing: OriginPart::Name } => String::from_str(
                "Could not parse the project name from the origin.",
            ),
            RemoteError::TransportFailure => String::from_str("failed to send request"),
            RemoteError::UnexpectedResponseShape => String::from_str("failed to read response"),
            RemoteError::UnresolvableNamespace | RemoteError::ProjectNotFound => String::from_str(
                "Unable to get the project ID from the GitLab API.\nFind and configure your project ID using the instructions at: https://github.com/arusahni/git-req/wiki/Finding-Project-IDs",
            ),
        }
    }
}

} // verus!

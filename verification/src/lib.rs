//! Resolves a repository's `origin` remote into a provider client that can
//! list open merge requests and name the branch of a request.
//!
//! Nothing in this crate performs I/O. Wherever a capability needs the
//! network it is written as a step function: the caller performs the request
//! that a step asks for and hands the reply to the next step.

pub mod credentials;
pub mod error;
pub mod exchange;
pub mod origin;
pub mod payload;
pub mod remotes;
pub mod requests;
pub mod text;

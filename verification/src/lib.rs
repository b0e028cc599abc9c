//! Core logic of a small set of networked services: an identity service that
//! registers users, verifies credentials, and issues bearer session tokens; a
//! gateway that translates external REST calls into internal request shapes;
//! and domain services (ideas, projects/tasks, notifications) with one compound
//! launch workflow.
//!
//! Storage access, RPC transport and HTTP plumbing are external collaborators:
//! callers fetch records and hand them to the verified functions here, and
//! carry the produced writes back to storage.
use vstd::prelude::*;

pub mod config;
pub mod domain;
pub mod errors;
pub mod gateway;
pub mod hashing;
pub mod identity;
pub mod ids;
pub mod jsontext;
pub mod launch;
pub mod token;
pub mod updates;

verus! {

/// Role given to a newly registered user when the request carries none.
pub const DEFAULT_ROLE: &'static str = "creator";

} // verus!

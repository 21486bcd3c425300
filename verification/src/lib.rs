//! Verified core of an agent supervisor: access control, mission
//! validation, API token hashing, agent environment files, compose
//! invocations, container status decisions and the operator command
//! allowlist.
use vstd::prelude::*;

pub mod access;
pub mod agent;
pub mod compose;
pub mod env;
pub mod mission;
pub mod ops;
pub mod status;
pub mod text;
pub mod token;

verus! {

} // verus!

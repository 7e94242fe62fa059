//! Orchestrator job-dispatch and privilege-separated execution library.
//!
//! The verified core of a benchmark-running service: credential validation,
//! the per-connection job session protocol, the decisions of the
//! privilege-separated executor, the certificate lifecycle state machine,
//! output-stream assembly, and the provisioning plan.

use vstd::prelude::*;

pub mod auth;
pub mod certs;
pub mod codec;
pub mod executor;
pub mod laws;
pub mod output;
pub mod provision;
pub mod session;

verus! {

} // verus!

//! Build-profile resolution and process-orchestration pipeline for a
//! coverage-guided fuzzing workflow.
//!
//! The library turns a requested build variant into a concrete, deterministic
//! set of compiler flags and environment assignments, assembles the exact
//! child-process invocations (toolchain build, fuzzing-engine launch, debugger
//! replay, workspace clean), and enforces the version agreement between the
//! orchestrator and the external engine.  All decisions are made here, on
//! plain values; actually spawning or replacing processes is left to the
//! thin binary around this crate.

use vstd::prelude::*;

pub mod debugger;
pub mod errors;
pub mod invocation;
pub mod opts;
pub mod paths;
pub mod pipeline;
pub mod resolver;
pub mod runner;
pub mod strutil;
pub mod toolchain;
pub mod version_guard;

verus! {

/// The orchestrator's own compiled-in version string, compared against the
/// external engine's self-reported build version before any engine build.
pub fn orchestrator_version() -> (r: String)
    ensures
        r@ == "0.5.55"@,
{
    String::from_str("0.5.55")
}

} // verus!

//! Error taxonomy of the orchestration pipeline.
//!
//! Every failure is terminal for the current invocation: nothing is retried.

use vstd::prelude::*;

verus! {

/// Why a pipeline stage refused to proceed.
#[derive(Debug, PartialEq, Eq)]
pub enum Error {
    /// A required positional argument (target name, crash file) was missing.
    UsageError,
    /// The orchestrator's version and the engine's self-reported build
    /// version differ; the build was never started.
    VersionMismatch { local: String, reported: String },
    /// The toolchain exited nonzero; the code is propagated verbatim.
    ToolchainFailure { code: i32 },
    /// The engine or debugger binary could not be executed; `path` names
    /// where it was expected.
    ProcessLaunchFailure { path: String },
}

impl Error {
    /// True exactly of the `VersionMismatch` variant.
    pub fn is_version_mismatch(&self) -> (r: bool)
        ensures
            r == (self is VersionMismatch),
    {
        match self {
            Error::VersionMismatch { .. } => true,
            _ => false,
        }
    }
}

} // verus!

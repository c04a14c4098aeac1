//! The error taxonomy of the build pipeline.
//!
//! Every failure is surfaced immediately to the caller as one terminal
//! value naming the stage that failed, with the captured diagnostic text
//! attached where an external tool produced any.

use vstd::prelude::*;

verus! {

/// A terminal build failure.
#[derive(Debug, Clone, PartialEq, Eq)]
pub enum BuildError {
    /// Resetting or creating a workspace directory failed.
    WorkspaceError { diagnostics: String },
    /// Staging the vendored source tree failed; `path` names the offending
    /// filesystem entry or carries the copy diagnostic.
    StagingError { path: String },
    /// No revision tag matches the requested minor version.
    VersionNotFound { version: String },
    /// A version-control operation failed or the tag was rejected.
    CheckoutError { diagnostics: String },
    /// The configure step reported failure.
    ConfigureFailed { diagnostics: String },
    /// The compile step reported failure.
    CompileFailed { diagnostics: String },
    /// The install step reported failure.
    InstallFailed { diagnostics: String },
    /// An external process could not be spawned at all.
    ExecutionError { diagnostics: String },
    /// A command with no program token was about to be executed.
    EmptyCommand,
}

} // verus!

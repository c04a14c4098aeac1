//! Orchestration core for building a vendored `librdkafka` source tree into
//! installable artifacts (headers and libraries).
//!
//! The crate computes the workspace layout for a requested release line,
//! resolves a requested minor version against the tags of the staged tree,
//! plans the staging copy, and drives a configure/compile/install pipeline as
//! a step-by-step state machine.  Every decision is made here, over plain
//! values; running processes and touching the filesystem is left to the
//! caller, which feeds the observed outcomes back into the state machine.

use vstd::prelude::*;

pub mod command;
pub mod errors;
pub mod numerals;
pub mod paths;
pub mod pipeline;
pub mod staging;
pub mod version;

use crate::paths::path_join;

verus! {

/// Name of the directory holding the vendored source tree, relative to the
/// crate that embeds it.  The caller may override it on a [`Build`] when the
/// tree lives elsewhere.
pub fn source_dir() -> (r: String)
    ensures
        r@ == "librdkafka"@,
{
    String::from_str("librdkafka")
}

/// The artifact layout produced by a successful build: the install directory
/// together with its `include` and `lib` subdirectories.
#[derive(Debug, Clone, PartialEq, Eq)]
pub struct Artifacts {
    pub install_dir: String,
    pub include_dir: String,
    pub lib_dir: String,
}

/// A build request: deterministic workspace paths derived from an output root
/// and a version string, plus an optional parallelism override.
#[derive(Debug, Clone)]
pub struct Build {
    pub build_dir: String,
    pub install_dir: String,
    pub source_dir: String,
    pub version: String,
    pub num_jobs: Option<usize>,
}

/// The build directory derived from an output root and a version string.
pub open spec fn spec_build_dir(out_dir: Seq<char>, version: Seq<char>) -> Seq<char> {
    path_join(path_join(out_dir, "librdkafka-build"@), version)
}

/// The install directory derived from an output root and a version string.
pub open spec fn spec_install_dir(out_dir: Seq<char>, version: Seq<char>) -> Seq<char> {
    path_join(path_join(out_dir, "librdkafka"@), version)
}

/// What a freshly constructed [`Build`] looks like: all paths are pure
/// functions of the output root and the version string.
pub open spec fn is_fresh_build(b: Build, out_dir: Seq<char>, version: Seq<char>) -> bool {
    &&& b.build_dir@ == spec_build_dir(out_dir, version)
    &&& b.install_dir@ == spec_install_dir(out_dir, version)
    &&& b.source_dir@ == "librdkafka"@
    &&& b.version@ == version
    &&& b.num_jobs is None
}

impl Build {
    /// Creates a build request for the given output root and minor version.
    /// The workspace paths are derived deterministically: no random or
    /// time-based component enters them.
    pub fn new(out_dir: &str, version: &str) -> (b: Build)
        ensures
            is_fresh_build(b, out_dir@, version@),
    {
        Build {
            build_dir: paths::join(&paths::join(out_dir, "librdkafka-build"), version),
            install_dir: paths::join(&paths::join(out_dir, "librdkafka"), version),
            source_dir: source_dir(),
            version: String::from_str(version),
            num_jobs: None,
        }
    }

    /// Overrides the parallelism used by the compile step.
    pub fn num_jobs(self, num_jobs: usize) -> (b: Build)
        ensures
            b.num_jobs == Some(num_jobs),
            b.build_dir@ == self.build_dir@,
            b.install_dir@ == self.install_dir@,
            b.source_dir@ == self.source_dir@,
            b.version@ == self.version@,
    {
        Build { num_jobs: Some(num_jobs), ..self }
    }

    /// Overrides the location of the vendored source tree.
    pub fn source_dir(self, source_dir: String) -> (b: Build)
        ensures
            b.source_dir@ == source_dir@,
            b.build_dir@ == self.build_dir@,
            b.install_dir@ == self.install_dir@,
            b.version@ == self.version@,
            b.num_jobs == self.num_jobs,
    {
        Build { source_dir, ..self }
    }

    /// The build directory this request will stage and compile in.
    pub fn build_dir(&self) -> (r: &String)
        ensures
            r@ == self.build_dir@,
    {
        &self.build_dir
    }

    /// The install directory this request will place artifacts in.
    pub fn install_dir(&self) -> (r: &String)
        ensures
            r@ == self.install_dir@,
    {
        &self.install_dir
    }

    /// Derives the artifact layout from the install directory:
    /// `include` and `lib` directly under it.  Purely a path computation;
    /// the directories themselves are produced by the install step.
    pub fn artifacts(&self) -> (a: Artifacts)
        ensures
            a.install_dir@ == self.install_dir@,
            a.include_dir@ == path_join(self.install_dir@, "include"@),
            a.lib_dir@ == path_join(self.install_dir@, "lib"@),
    {
        Artifacts {
            install_dir: self.install_dir.clone(),
            include_dir: paths::join(self.install_dir.as_str(), "include"),
            lib_dir: paths::join(self.install_dir.as_str(), "lib"),
        }
    }
}

/// Workspace paths are deterministic: two build requests constructed from
/// equal output roots and equal version strings target the same build and
/// install directories, and therefore the same artifact paths.
pub proof fn lemma_paths_deterministic(b1: Build, b2: Build, out_dir: Seq<char>, version: Seq<char>)
    requires
        is_fresh_build(b1, out_dir, version),
        is_fresh_build(b2, out_dir, version),
    ensures
        b1.build_dir@ == b2.build_dir@,
        b1.install_dir@ == b2.install_dir@,
{
}

} // verus!

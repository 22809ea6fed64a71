//! The build-status tree of the CI server, and the errors of fetching it.
use vstd::prelude::*;

verus! {

/// Outcome a build reports, provisional while it still runs.
#[derive(PartialEq, Eq, Structural, Clone, Copy, Debug)]
pub enum BuildStatus {
    Success,
    Failure,
    Error,
}

/// The named build configuration a build belongs to.
#[derive(Clone, Debug)]
pub struct BuildType {
    pub name: String,
}

/// Progress of a running build, as the server reports it.
#[derive(PartialEq, Eq, Structural, Clone, Copy, Debug)]
pub struct RunningInfo {
    pub percentage_complete: u16,
    pub elapsed_seconds: i32,
    pub estimated_total_seconds: i32,
    pub outdated: bool,
    pub probably_hanging: bool,
}

/// The builds this build depends on, in the order the server gave them.
/// Absent dependencies are an empty list, never a missing value.
#[derive(Debug)]
pub struct SnapshotDependencies {
    pub build: Vec<Build>,
}

/// One build and its dependency subtree. Each node owns its dependencies.
#[derive(Debug)]
pub enum Build {
    Queued {
        build_type: BuildType,
        web_url: String,
        snapshot_dependencies: SnapshotDependencies,
    },
    Running {
        build_type: BuildType,
        number: String,
        status: BuildStatus,
        status_text: String,
        web_url: String,
        running_info: RunningInfo,
        snapshot_dependencies: SnapshotDependencies,
    },
    Finished {
        build_type: BuildType,
        number: String,
        status: BuildStatus,
        status_text: String,
        web_url: String,
        snapshot_dependencies: SnapshotDependencies,
    },
}

/// Why fetching a build failed.
#[derive(PartialEq, Eq, Structural, Clone, Copy, Debug)]
pub enum FetchError {
    /// The connection failed, or the server answered with a non-success status.
    TransportError,
    /// The server refused the bearer token.
    AuthError,
    /// The payload does not have the shape of a build.
    DecodeError,
    /// The server answered with an empty object: no such build.
    EmptyResult,
}

impl Build {
    /// The configuration this build belongs to.
    pub open spec fn spec_build_type(&self) -> BuildType {
        match self {
            Build::Queued { build_type, .. } => *build_type,
            Build::Running { build_type, .. } => *build_type,
            Build::Finished { build_type, .. } => *build_type,
        }
    }

    /// The direct dependencies of this build.
    pub open spec fn deps(&self) -> Seq<Build> {
        match self {
            Build::Queued { snapshot_dependencies, .. } => snapshot_dependencies.build@,
            Build::Running { snapshot_dependencies, .. } => snapshot_dependencies.build@,
            Build::Finished { snapshot_dependencies, .. } => snapshot_dependencies.build@,
        }
    }
}

/// The direct dependencies of `build`, in server order; empty when it has none.
pub fn dependencies(build: &Build) -> (r: &[Build])
    ensures
        r@ == build.deps(),
{
    let snapshot_dependencies = match build {
        Build::Queued { snapshot_dependencies, .. } => snapshot_dependencies,
        Build::Running { snapshot_dependencies, .. } => snapshot_dependencies,
        Build::Finished { snapshot_dependencies, .. } => snapshot_dependencies,
    };
    snapshot_dependencies.build.as_slice()
}

} // verus!

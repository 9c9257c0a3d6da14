//! Core data model: builds, their actions, statuses, events and errors.

use vstd::prelude::*;

verus! {

/// Upper length bound (in characters) for a build identifier.
pub const BUILD_ID_MAX_LEN: usize = 50;

/// Upper length bound (in characters) for a project name.
pub const PROJECT_NAME_MAX_LEN: usize = 100;

/// Upper length bound (in characters) for an action description.
pub const DESCRIPTION_MAX_LEN: usize = 200;

/// Upper length bound (in characters) for a deployed program identifier.
pub const PROGRAM_ID_MAX_LEN: usize = 100;

/// Lifecycle state of a build: it starts in progress and ends, at most once,
/// either completed or failed. Both end states are terminal.
#[derive(Clone, Copy, PartialEq, Eq, Structural, Debug)]
pub enum BuildStatus {
    InProgress,
    Completed,
    Failed,
}

/// The kind of pipeline step that an action records.
#[derive(Clone, Copy, PartialEq, Eq, Structural, Debug)]
pub enum ActionType {
    Analyze,
    GenerateCode,
    CompileProgram,
    RunTests,
    Deploy,
    GenerateSDK,
    GenerateFrontend,
    Document,
}

/// Every way a ledger operation can be refused. A refused operation leaves
/// the ledger exactly as it was and emits no event.
#[derive(Clone, Copy, PartialEq, Eq, Structural, Debug)]
pub enum ErrorCode {
    /// A field violates its length bounds.
    ValidationError,
    /// A build with the same identifier already exists.
    DuplicateBuildID,
    /// No build with the given identifier exists.
    NotFound,
    /// The operation needs an in-progress build and the build is not.
    BuildNotInProgress,
    /// The presented caller identity is not the build's recorded authority.
    Unauthorized,
}

/// One logged pipeline run. Append-only: it is never deleted, and once its
/// status is terminal it is never mutated again.
#[derive(Debug)]
pub struct Build {
    /// Identity allowed to complete this build, as a 32-byte key.
    pub authority: [u8; 32],
    pub build_id: String,
    pub project_name: String,
    /// Number of actions appended so far; grows by exactly one per append.
    pub step_count: u32,
    pub started_at: i64,
    /// Zero until the build reaches a terminal status.
    pub completed_at: i64,
    pub status: BuildStatus,
    /// Artifact recorded at completion time, if any.
    pub deployed_program_id: Option<String>,
}

impl Build {
    /// Field bounds that hold of every stored build.
    pub open spec fn valid(self) -> bool {
        &&& 1 <= self.build_id@.len() <= BUILD_ID_MAX_LEN
        &&& 1 <= self.project_name@.len() <= PROJECT_NAME_MAX_LEN
        &&& (self.deployed_program_id matches Some(p) ==> p@.len() <= PROGRAM_ID_MAX_LEN)
        &&& (self.status == BuildStatus::InProgress ==> self.deployed_program_id is None
            && self.completed_at == 0)
    }
}

/// One immutable ledger entry: a discrete step within a build, bound to a
/// caller-supplied 32-byte content digest. Once written it never changes.
#[derive(Debug)]
pub struct BuildAction {
    /// Identifier of the owning build.
    pub build_id: String,
    /// 1-based, gap-free, per-build sequence index assigned at append time.
    pub step_number: u32,
    pub action_type: ActionType,
    pub description: String,
    /// Caller-computed digest; bound to the step, never recomputed here.
    pub content_hash: [u8; 32],
    pub timestamp: i64,
}

/// Event produced by a successful build creation.
#[derive(Debug)]
pub struct BuildStarted {
    pub build_id: String,
    pub project_name: String,
    pub timestamp: i64,
}

/// Event produced by a successful append; carries the assigned step number.
#[derive(Debug)]
pub struct ActionLogged {
    pub build_id: String,
    pub step_number: u32,
    pub action_type: ActionType,
    pub description: String,
    pub content_hash: [u8; 32],
    pub timestamp: i64,
}

/// Event produced by a successful completion.
#[derive(Debug)]
pub struct BuildCompleted {
    pub build_id: String,
    pub success: bool,
    pub program_id: Option<String>,
    pub timestamp: i64,
    pub total_steps: u32,
}

} // verus!

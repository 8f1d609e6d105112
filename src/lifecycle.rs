//! The detect and build protocol: what each phase outcome writes and with
//! which status the process exits.
use vstd::prelude::*;

use crate::launch::Launch;

verus! {

/// Exit status of a phase that succeeded.
pub const EXIT_SUCCESS: i32 = 0;

/// Exit status of a phase that failed on an error.
pub const EXIT_FAILURE: i32 = 1;

/// Exit status reserved for a detection that does not apply; no crash uses it.
pub const EXIT_DETECT_FAIL: i32 = 100;

/// A requirement that a buildpack adds to the build plan.
#[derive(Debug, Clone, PartialEq, Eq)]
pub struct Require {
    pub name: String,
    pub metadata: String,
}

/// The contributions of a passing detection to the build plan.
#[derive(Debug, Clone, PartialEq, Eq)]
pub struct BuildPlan {
    pub provides: Vec<String>,
    pub requires: Vec<Require>,
}

/// What the author's detect logic decided: pass or fail, never both.
#[derive(Debug, Clone, PartialEq, Eq)]
pub enum DetectResult {
    Pass { plan: Option<BuildPlan> },
    Fail,
}

/// Errors that end a phase. Framework errors and the author's own errors
/// stay apart.
#[derive(Debug, Clone, PartialEq, Eq)]
pub enum PhaseError {
    /// A file could not be read or written.
    Io { path: String, message: String },
    /// A file could not be deserialized.
    Deserialization { path: String, message: String },
    /// A string is not a valid identifier.
    InvalidIdentifier(String),
    /// A layer name was declared twice in one build.
    DuplicateLayer(String),
    /// The buildpack author's logic reported an error.
    Author(String),
}

/// What a phase leaves behind when it ends.
#[derive(Clone, Copy, Debug, PartialEq, Eq, Structural)]
pub struct PhaseEffects {
    pub exit_code: i32,
    /// Write the build plan contributions.
    pub write_plan: bool,
    /// Write the launch descriptor.
    pub write_launch: bool,
    /// Create or change layer directories.
    pub touch_layers: bool,
}

/// Ends a detection: a pass writes its plan contributions, if any, and
/// exits with success; a fail writes nothing and exits with the reserved
/// status; an error writes nothing and exits with failure. Detection never
/// touches layers nor writes a launch descriptor.
pub fn detect_effects(outcome: &Result<DetectResult, PhaseError>) -> (r: PhaseEffects)
    ensures
        !r.touch_layers,
        !r.write_launch,
        match outcome {
            Ok(DetectResult::Pass { plan }) => r.exit_code == EXIT_SUCCESS && r.write_plan == plan is Some,
            Ok(DetectResult::Fail) => r.exit_code == EXIT_DETECT_FAIL && !r.write_plan,
            Err(_) => r.exit_code == EXIT_FAILURE && !r.write_plan,
        },
{
    match outcome {
        Ok(DetectResult::Pass { plan }) => PhaseEffects {
            exit_code: EXIT_SUCCESS,
            write_plan: plan.is_some(),
            write_launch: false,
            touch_layers: false,
        },
        Ok(DetectResult::Fail) => PhaseEffects {
            exit_code: EXIT_DETECT_FAIL,
            write_plan: false,
            write_launch: false,
            touch_layers: false,
        },
        Err(_) => PhaseEffects {
            exit_code: EXIT_FAILURE,
            write_plan: false,
            write_launch: false,
            touch_layers: false,
        },
    }
}

/// Ends a build: success writes the launch descriptor, where the author
/// produced one, and exits with success; an error exits with failure and
/// writes nothing more. Layers are the layer manager's, never this step's.
pub fn build_effects(outcome: &Result<Option<Launch>, PhaseError>) -> (r: PhaseEffects)
    ensures
        !r.touch_layers,
        !r.write_plan,
        match outcome {
            Ok(launch) => r.exit_code == EXIT_SUCCESS && r.write_launch == launch is Some,
            Err(_) => r.exit_code == EXIT_FAILURE && !r.write_launch,
        },
{
    match outcome {
        Ok(launch) => PhaseEffects {
            exit_code: EXIT_SUCCESS,
            write_plan: false,
            write_launch: launch.is_some(),
            touch_layers: false,
        },
        Err(_) => PhaseEffects {
            exit_code: EXIT_FAILURE,
            write_plan: false,
            write_launch: false,
            touch_layers: false,
        },
    }
}

/// The status reserved for a failing detection is neither the status of
/// success nor that of an error.
pub proof fn lemma_detect_fail_is_distinct()
    ensures
        EXIT_DETECT_FAIL != EXIT_SUCCESS,
        EXIT_DETECT_FAIL != EXIT_FAILURE,
{
}

} // verus!

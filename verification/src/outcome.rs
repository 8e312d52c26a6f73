//! Classification of a subprocess run.
//!
//! The spawn itself happens outside this crate; what comes back is the plain
//! shape of a finished attempt — did it spawn, did it exit zero, what did it
//! write — and classification of that shape is a pure decision.

use vstd::prelude::*;

verus! {

/// What a finished subprocess left behind: whether it exited with status
/// zero, and its fully captured output streams.
pub struct ProcessOutput {
    pub exit_zero: bool,
    pub stdout: String,
    pub stderr: String,
}

/// Result of one attempt to run the script: either the process ran to
/// completion, or it could not be spawned at all (missing file, not
/// executable, permission denied), with the spawn error's text.
pub enum SpawnResult {
    Ran(ProcessOutput),
    SpawnError(String),
}

/// Classified outcome of one job execution.
pub enum ExecOutcome {
    /// The process spawned and exited with status zero.
    Success { stdout: String },
    /// The process exited non-zero (detail carries its captured standard
    /// error) or could not be spawned (detail carries the spawn error).
    ExecutionFailed { detail: String },
}

/// Spec-level view of a [`SpawnResult`].
pub enum SpawnResultView {
    Ran { exit_zero: bool, stdout: Seq<char>, stderr: Seq<char> },
    SpawnError { message: Seq<char> },
}

impl View for SpawnResult {
    type V = SpawnResultView;

    open spec fn view(&self) -> SpawnResultView {
        match self {
            SpawnResult::Ran(out) => SpawnResultView::Ran {
                exit_zero: out.exit_zero,
                stdout: out.stdout@,
                stderr: out.stderr@,
            },
            SpawnResult::SpawnError(m) => SpawnResultView::SpawnError { message: m@ },
        }
    }
}

/// Spec-level view of an [`ExecOutcome`].
pub enum ExecOutcomeView {
    Success { stdout: Seq<char> },
    ExecutionFailed { detail: Seq<char> },
}

impl View for ExecOutcome {
    type V = ExecOutcomeView;

    open spec fn view(&self) -> ExecOutcomeView {
        match self {
            ExecOutcome::Success { stdout } => ExecOutcomeView::Success { stdout: stdout@ },
            ExecOutcome::ExecutionFailed { detail } => ExecOutcomeView::ExecutionFailed {
                detail: detail@,
            },
        }
    }
}

/// How a spawn result is classified: exit status zero is the one success;
/// a non-zero exit carries the captured standard error as its detail, and a
/// failure to spawn carries the spawn error's text.
pub open spec fn spec_classify(r: SpawnResultView) -> ExecOutcomeView {
    match r {
        SpawnResultView::Ran { exit_zero, stdout, stderr } => {
            if exit_zero {
                ExecOutcomeView::Success { stdout }
            } else {
                ExecOutcomeView::ExecutionFailed { detail: stderr }
            }
        },
        SpawnResultView::SpawnError { message } => ExecOutcomeView::ExecutionFailed {
            detail: message,
        },
    }
}

/// Classify one finished attempt to run the script.
pub fn classify(r: SpawnResult) -> (out: ExecOutcome)
    ensures
        out@ == spec_classify(r@),
{
    match r {
        SpawnResult::Ran(output) => {
            if output.exit_zero {
                ExecOutcome::Success { stdout: output.stdout }
            } else {
                ExecOutcome::ExecutionFailed { detail: output.stderr }
            }
        },
        SpawnResult::SpawnError(message) => ExecOutcome::ExecutionFailed { detail: message },
    }
}

} // verus!

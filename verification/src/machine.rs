//! The consumption loop as a pure state machine.
//!
//! One worker processes one message end-to-end: waiting for a delivery,
//! validating it, resolving the named project, running its script, and
//! acknowledging the delivery. Everything that blocks — the queue pop, the
//! subprocess, the acknowledgment — happens outside this crate; the machine
//! here is the whole of the decision: a pure function from the current state
//! and the event that arrived to the next state and the effect to perform.
//! No event ever stops the machine: every per-message defect becomes a
//! negative acknowledgment and the machine returns to waiting.

use vstd::prelude::*;
use vstd::string::StringExecFns;
use crate::outcome::ExecOutcomeView;
use crate::outcome::SpawnResult;
use crate::outcome::SpawnResultView;
use crate::outcome::spec_classify;
use crate::resolve::has_parent_segment;
use crate::resolve::is_absolute_path;
use crate::resolve::is_safe_component;
use crate::resolve::joined;
use crate::resolve::lemma_contained;
use crate::resolve::lemma_escape_refused;
use crate::resolve::parent_of;
use crate::resolve::resolve;
use crate::validate::ValidationError;
use crate::validate::json_parses;
use crate::validate::spec_validate;
use crate::validate::validate;

verus! {

/// The acknowledgment decision for one delivery: accept it, or reject it
/// with redelivery disabled (a defective message must not loop forever).
#[derive(Clone, Copy, Debug, PartialEq, Eq, Structural)]
pub enum Decision {
    Ack,
    NackNoRequeue,
}

/// The kind of a per-message failure, for the structured record that
/// accompanies a negative acknowledgment.
#[derive(Clone, Copy, Debug, PartialEq, Eq, Structural)]
pub enum FailureKind {
    MalformedEncoding,
    MalformedStructure,
    MissingField,
    PathEscape,
    ExecutionFailed,
}

/// A structured record of one failed message: the kind of defect and a
/// detail string. Validation failures carry no detail (the message content
/// stays out of the record); a path escape carries the offending identifier;
/// an execution failure carries the captured standard error or spawn error.
pub struct FailureRecord {
    pub kind: FailureKind,
    pub detail: String,
}

/// Spec-level view of a [`FailureRecord`].
pub struct FailureRecordView {
    pub kind: FailureKind,
    pub detail: Seq<char>,
}

impl View for FailureRecord {
    type V = FailureRecordView;

    open spec fn view(&self) -> FailureRecordView {
        FailureRecordView { kind: self.kind, detail: self.detail@ }
    }
}

/// Where the machine stands: waiting for the next delivery, or waiting for
/// the script it asked to be run to finish.
#[derive(Clone, Copy, Debug, PartialEq, Eq, Structural)]
pub enum LoopState {
    Waiting,
    Running,
}

/// What happened outside: a message was delivered, the poll timed out with
/// the queue empty, or the requested script run finished.
pub enum Event {
    Delivered { body: Vec<u8> },
    PopTimedOut,
    Completed { result: SpawnResult },
}

/// Spec-level view of an [`Event`].
pub enum EventView {
    Delivered { body: Seq<u8> },
    PopTimedOut,
    Completed { result: SpawnResultView },
}

impl View for Event {
    type V = EventView;

    open spec fn view(&self) -> EventView {
        match self {
            Event::Delivered { body } => EventView::Delivered { body: body@ },
            Event::PopTimedOut => EventView::PopTimedOut,
            Event::Completed { result } => EventView::Completed { result: result@ },
        }
    }
}

/// What the machine asks its caller to do next: block for the next delivery,
/// run the project's script (`program`, with `directory` as its working
/// directory), or issue an acknowledgment decision — with the failure record
/// to log when the decision is negative — and then block for the next
/// delivery.
pub enum Effect {
    AwaitNext,
    Run { directory: String, program: String },
    Report { decision: Decision, failure: Option<FailureRecord> },
}

/// Spec-level view of an [`Effect`].
pub enum EffectView {
    AwaitNext,
    Run { directory: Seq<char>, program: Seq<char> },
    Report { decision: Decision, failure: Option<FailureRecordView> },
}

impl View for Effect {
    type V = EffectView;

    open spec fn view(&self) -> EffectView {
        match self {
            Effect::AwaitNext => EffectView::AwaitNext,
            Effect::Run { directory, program } => EffectView::Run {
                directory: directory@,
                program: program@,
            },
            Effect::Report { decision, failure } => EffectView::Report {
                decision: *decision,
                failure: match failure {
                    Option::Some(rec) => Option::Some(rec@),
                    Option::None => Option::None,
                },
            },
        }
    }
}

/// The fixed name of the script run inside a resolved project directory.
pub open spec fn script_name() -> Seq<char> {
    "run.sh"@
}

/// The failure kind recorded for each validation error.
pub open spec fn spec_failure_kind(e: ValidationError) -> FailureKind {
    match e {
        ValidationError::MalformedEncoding => FailureKind::MalformedEncoding,
        ValidationError::MalformedStructure => FailureKind::MalformedStructure,
        ValidationError::MissingField => FailureKind::MissingField,
    }
}

/// How a delivered message is handled from the waiting state: a validation
/// error or an unsafe identifier is negatively acknowledged at once, with
/// nothing run; a safe identifier moves the machine to running, asking for
/// the project's script inside the resolved directory.
pub open spec fn spec_handle(base: Seq<char>, body: Seq<u8>) -> (LoopState, EffectView) {
    match spec_validate(body) {
        Result::Err(e) => (
            LoopState::Waiting,
            EffectView::Report {
                decision: Decision::NackNoRequeue,
                failure: Option::Some(
                    FailureRecordView { kind: spec_failure_kind(e), detail: Seq::empty() },
                ),
            },
        ),
        Result::Ok(p) => if is_safe_component(p) {
            (
                LoopState::Running,
                EffectView::Run {
                    directory: joined(base, p),
                    program: joined(joined(base, p), script_name()),
                },
            )
        } else {
            (
                LoopState::Waiting,
                EffectView::Report {
                    decision: Decision::NackNoRequeue,
                    failure: Option::Some(
                        FailureRecordView { kind: FailureKind::PathEscape, detail: p },
                    ),
                },
            )
        },
    }
}

/// How a finished script run is acknowledged: success is the one positive
/// acknowledgment; any failure is negatively acknowledged with its detail
/// recorded. Either way the machine returns to waiting.
pub open spec fn spec_decide(result: SpawnResultView) -> (LoopState, EffectView) {
    match spec_classify(result) {
        ExecOutcomeView::Success { stdout } => (
            LoopState::Waiting,
            EffectView::Report { decision: Decision::Ack, failure: Option::None },
        ),
        ExecOutcomeView::ExecutionFailed { detail } => (
            LoopState::Waiting,
            EffectView::Report {
                decision: Decision::NackNoRequeue,
                failure: Option::Some(
                    FailureRecordView { kind: FailureKind::ExecutionFailed, detail },
                ),
            },
        ),
    }
}

/// One transition of the consumption loop. An empty poll changes nothing
/// and emits no acknowledgment; a mismatched pair of state and event is
/// likewise absorbed, so no event can ever stop the loop.
pub open spec fn spec_step(state: LoopState, base: Seq<char>, event: EventView) -> (
    LoopState,
    EffectView,
) {
    match (state, event) {
        (LoopState::Waiting, EventView::Delivered { body }) => spec_handle(base, body),
        (LoopState::Waiting, EventView::PopTimedOut) => (LoopState::Waiting, EffectView::AwaitNext),
        (LoopState::Running, EventView::Completed { result }) => spec_decide(result),
        _ => (state, EffectView::AwaitNext),
    }
}

/// Drive the consumption loop by one transition: from the current state and
/// the event that arrived, compute the next state and the effect to perform.
/// The result is exactly [`spec_step`] of the inputs.
pub fn step(state: LoopState, base: &str, event: Event) -> (r: (LoopState, Effect))
    ensures
        r.0 == spec_step(state, base@, event@).0,
        r.1@ == spec_step(state, base@, event@).1,
{
    match (state, event) {
        (LoopState::Waiting, Event::Delivered { body }) => handle_message(base, body),
        (LoopState::Waiting, Event::PopTimedOut) => (LoopState::Waiting, Effect::AwaitNext),
        (LoopState::Running, Event::Completed { result }) => decide_completed(result),
        (s, _) => (s, Effect::AwaitNext),
    }
}

/// Handle one delivered message body from the waiting state.
fn handle_message(base: &str, body: Vec<u8>) -> (r: (LoopState, Effect))
    ensures
        r.0 == spec_handle(base@, body@).0,
        r.1@ == spec_handle(base@, body@).1,
{
    let ident = match validate(body.as_slice()) {
        Result::Err(e) => {
            let kind = match e {
                ValidationError::MalformedEncoding => FailureKind::MalformedEncoding,
                ValidationError::MalformedStructure => FailureKind::MalformedStructure,
                ValidationError::MissingField => FailureKind::MissingField,
            };
            return (
                LoopState::Waiting,
                Effect::Report {
                    decision: Decision::NackNoRequeue,
                    failure: Some(FailureRecord { kind, detail: String::new() }),
                },
            );
        },
        Result::Ok(p) => p,
    };
    match resolve(base, ident.as_str()) {
        Result::Err(_) => (
            LoopState::Waiting,
            Effect::Report {
                decision: Decision::NackNoRequeue,
                failure: Some(FailureRecord { kind: FailureKind::PathEscape, detail: ident }),
            },
        ),
        Result::Ok(directory) => {
            let mut program = directory.clone();
            program.append("/");
            program.append("run.sh");
            (LoopState::Running, Effect::Run { directory, program })
        },
    }
}

/// Acknowledge one finished script run.
fn decide_completed(result: SpawnResult) -> (r: (LoopState, Effect))
    ensures
        r.0 == spec_decide(result@).0,
        r.1@ == spec_decide(result@).1,
{
    match crate::outcome::classify(result) {
        crate::outcome::ExecOutcome::Success { stdout: _ } => (
            LoopState::Waiting,
            Effect::Report { decision: Decision::Ack, failure: None },
        ),
        crate::outcome::ExecOutcome::ExecutionFailed { detail } => (
            LoopState::Waiting,
            Effect::Report {
                decision: Decision::NackNoRequeue,
                failure: Some(FailureRecord { kind: FailureKind::ExecutionFailed, detail }),
            },
        ),
    }
}

/// A message that does not decode as UTF-8 or does not parse as a JSON
/// document is negatively acknowledged from the waiting state at once: the
/// machine records the validation defect, asks for nothing to be run, and
/// stays waiting — the resolver's and executor's stages are never reached.
pub proof fn lemma_malformed_never_runs(base: Seq<char>, body: Seq<u8>)
    requires
        !vstd::utf8::valid_utf8(body) || !json_parses(vstd::utf8::decode_utf8(body)),
    ensures
        spec_step(LoopState::Waiting, base, EventView::Delivered { body }).0 == LoopState::Waiting,
        spec_step(LoopState::Waiting, base, EventView::Delivered { body }).1 matches
            EffectView::Report { decision, failure } && decision == Decision::NackNoRequeue && (
        failure matches Option::Some(rec) && (rec.kind == FailureKind::MalformedEncoding
            || rec.kind == FailureKind::MalformedStructure)),
{
}

/// A message whose project identifier holds a parent-directory segment or is
/// itself absolute is negatively acknowledged as a path escape, and the
/// machine asks for nothing to be run.
pub proof fn lemma_escape_never_runs(base: Seq<char>, body: Seq<u8>)
    requires
        spec_validate(body) matches Result::Ok(p) && (has_parent_segment(p) || is_absolute_path(
            p,
        )),
    ensures
        spec_step(LoopState::Waiting, base, EventView::Delivered { body }).0 == LoopState::Waiting,
        spec_step(LoopState::Waiting, base, EventView::Delivered { body }).1 matches
            EffectView::Report { decision, failure } && decision == Decision::NackNoRequeue && (
        failure matches Option::Some(rec) && rec.kind == FailureKind::PathEscape),
{
    let p = spec_validate(body)->Ok_0;
    lemma_escape_refused(p);
}

/// On a valid message with a safe project identifier the machine moves to
/// running and asks for exactly one script: the fixed script name inside the
/// resolved directory. Both are contained — the directory is a direct child
/// of the base, and the script a direct child of the directory.
pub proof fn lemma_run_is_contained(base: Seq<char>, body: Seq<u8>)
    requires
        spec_validate(body) matches Result::Ok(p) && is_safe_component(p),
    ensures
        spec_step(LoopState::Waiting, base, EventView::Delivered { body }).0 == LoopState::Running,
        spec_step(LoopState::Waiting, base, EventView::Delivered { body }).1 matches
            EffectView::Run { directory, program } && parent_of(directory) == base && parent_of(
            program,
        ) == directory && program == joined(directory, script_name()),
{
    let p = spec_validate(body)->Ok_0;
    lemma_contained(base, p);
    reveal_strlit("run.sh");
    assert(is_safe_component(script_name()));
    lemma_contained(joined(base, p), script_name());
}

/// The machine never asks for anything to be run except on a delivered
/// message that validated and whose identifier passed the containment
/// check; the directory of every run effect is a direct child of the base.
pub proof fn lemma_only_contained_runs(state: LoopState, base: Seq<char>, event: EventView)
    requires
        spec_step(state, base, event).1 is Run,
    ensures
        state == LoopState::Waiting,
        event is Delivered,
        spec_validate(event->Delivered_body) matches Result::Ok(p) && is_safe_component(p)
            && spec_step(state, base, event).1->Run_directory == joined(base, p),
        parent_of(spec_step(state, base, event).1->Run_directory) == base,
{
    match (state, event) {
        (LoopState::Waiting, EventView::Delivered { body }) => {
            let p = spec_validate(body)->Ok_0;
            lemma_contained(base, p);
        },
        _ => {},
    }
}

} // verus!

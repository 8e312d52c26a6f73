use actor::machine::{step, Decision, Effect, Event, FailureKind, LoopState};
use actor::outcome::{classify, ExecOutcome, ProcessOutput, SpawnResult};
use actor::resolve::{resolve, PathError};
use actor::validate::{validate, ValidationError};

fn ran(exit_zero: bool, stdout: &str, stderr: &str) -> SpawnResult {
    SpawnResult::Ran(ProcessOutput {
        exit_zero,
        stdout: stdout.to_string(),
        stderr: stderr.to_string(),
    })
}

#[test]
fn validate_rejects_invalid_utf8() {
    let body: Vec<u8> = vec![0xff, 0xfe, 0x80];
    assert_eq!(validate(&body), Err(ValidationError::MalformedEncoding));
}

#[test]
fn validate_rejects_non_json() {
    assert_eq!(
        validate(b"not json"),
        Err(ValidationError::MalformedStructure)
    );
}

#[test]
fn validate_rejects_missing_project() {
    assert_eq!(validate(b"{}"), Err(ValidationError::MissingField));
    assert_eq!(
        validate(b"{\"other\":\"x\"}"),
        Err(ValidationError::MissingField)
    );
}

#[test]
fn validate_rejects_non_string_project() {
    assert_eq!(
        validate(b"{\"project\":5}"),
        Err(ValidationError::MissingField)
    );
    assert_eq!(
        validate(b"{\"project\":null}"),
        Err(ValidationError::MissingField)
    );
}

#[test]
fn validate_rejects_empty_project() {
    assert_eq!(
        validate(b"{\"project\":\"\"}"),
        Err(ValidationError::MissingField)
    );
}

#[test]
fn validate_extracts_project() {
    assert_eq!(
        validate(b"{\"project\":\"my-service\"}"),
        Ok("my-service".to_string())
    );
}

#[test]
fn validate_is_idempotent() {
    let bodies: [&[u8]; 4] = [
        b"{\"project\":\"svc1\"}",
        b"not json",
        b"{}",
        &[0xff, 0x00],
    ];
    for body in bodies {
        assert_eq!(validate(body), validate(body));
    }
}

#[test]
fn resolve_accepts_simple_name() {
    assert_eq!(resolve("/base", "svc1"), Ok("/base/svc1".to_string()));
}

#[test]
fn resolve_result_parent_is_base() {
    let resolved = resolve("/base", "svc1").unwrap();
    let parent = &resolved[..resolved.rfind('/').unwrap()];
    assert_eq!(parent, "/base");
}

#[test]
fn resolve_rejects_parent_segments() {
    assert_eq!(resolve("/base", "../../etc"), Err(PathError::PathEscape));
    assert_eq!(resolve("/base", ".."), Err(PathError::PathEscape));
    assert_eq!(resolve("/base", "a/../b"), Err(PathError::PathEscape));
}

#[test]
fn resolve_rejects_absolute_paths() {
    assert_eq!(resolve("/base", "/etc"), Err(PathError::PathEscape));
}

#[test]
fn resolve_rejects_dot_and_empty() {
    assert_eq!(resolve("/base", "."), Err(PathError::PathEscape));
    assert_eq!(resolve("/base", ""), Err(PathError::PathEscape));
}

#[test]
fn classify_zero_exit_is_success() {
    let out = classify(ran(true, "done", ""));
    assert!(matches!(out, ExecOutcome::Success { stdout } if stdout == "done"));
}

#[test]
fn classify_nonzero_exit_carries_stderr() {
    let out = classify(ran(false, "", "boom"));
    assert!(matches!(out, ExecOutcome::ExecutionFailed { detail } if detail == "boom"));
}

#[test]
fn classify_spawn_error_carries_message() {
    let out = classify(SpawnResult::SpawnError("no such file".to_string()));
    assert!(matches!(out, ExecOutcome::ExecutionFailed { detail } if detail == "no such file"));
}

#[test]
fn scenario_successful_job_is_acked() {
    let body = b"{\"project\":\"svc1\"}".to_vec();
    let (state, effect) = step(LoopState::Waiting, "/base", Event::Delivered { body });
    assert_eq!(state, LoopState::Running);
    match effect {
        Effect::Run { directory, program } => {
            assert_eq!(directory, "/base/svc1");
            assert_eq!(program, "/base/svc1/run.sh");
        }
        _ => panic!("expected a run effect"),
    }
    let (state, effect) = step(
        state,
        "/base",
        Event::Completed {
            result: ran(true, "ok", ""),
        },
    );
    assert_eq!(state, LoopState::Waiting);
    match effect {
        Effect::Report { decision, failure } => {
            assert_eq!(decision, Decision::Ack);
            assert!(failure.is_none());
        }
        _ => panic!("expected a report effect"),
    }
}

#[test]
fn scenario_failing_job_is_nacked_with_stderr() {
    let (state, effect) = step(
        LoopState::Running,
        "/base",
        Event::Completed {
            result: ran(false, "", "boom"),
        },
    );
    assert_eq!(state, LoopState::Waiting);
    match effect {
        Effect::Report { decision, failure } => {
            assert_eq!(decision, Decision::NackNoRequeue);
            let record = failure.expect("a failure record");
            assert_eq!(record.kind, FailureKind::ExecutionFailed);
            assert_eq!(record.detail, "boom");
        }
        _ => panic!("expected a report effect"),
    }
}

#[test]
fn scenario_escaping_project_is_nacked_without_running() {
    let body = b"{\"project\":\"../secret\"}".to_vec();
    let (state, effect) = step(LoopState::Waiting, "/base", Event::Delivered { body });
    assert_eq!(state, LoopState::Waiting);
    match effect {
        Effect::Report { decision, failure } => {
            assert_eq!(decision, Decision::NackNoRequeue);
            let record = failure.expect("a failure record");
            assert_eq!(record.kind, FailureKind::PathEscape);
            assert_eq!(record.detail, "../secret");
        }
        _ => panic!("expected a report effect, not a run"),
    }
}

#[test]
fn scenario_malformed_message_is_nacked_without_running() {
    let body = b"not json".to_vec();
    let (state, effect) = step(LoopState::Waiting, "/base", Event::Delivered { body });
    assert_eq!(state, LoopState::Waiting);
    match effect {
        Effect::Report { decision, failure } => {
            assert_eq!(decision, Decision::NackNoRequeue);
            let record = failure.expect("a failure record");
            assert_eq!(record.kind, FailureKind::MalformedStructure);
        }
        _ => panic!("expected a report effect, not a run"),
    }
}

#[test]
fn scenario_invalid_utf8_message_is_nacked_without_running() {
    let body = vec![0xff, 0xfe];
    let (state, effect) = step(LoopState::Waiting, "/base", Event::Delivered { body });
    assert_eq!(state, LoopState::Waiting);
    match effect {
        Effect::Report { decision, failure } => {
            assert_eq!(decision, Decision::NackNoRequeue);
            let record = failure.expect("a failure record");
            assert_eq!(record.kind, FailureKind::MalformedEncoding);
        }
        _ => panic!("expected a report effect, not a run"),
    }
}

#[test]
fn scenario_empty_queue_emits_nothing() {
    let (state, effect) = step(LoopState::Waiting, "/base", Event::PopTimedOut);
    assert_eq!(state, LoopState::Waiting);
    assert!(matches!(effect, Effect::AwaitNext));
}

//! Classification of execution results: a cooperative stop is suppressed,
//! everything else is reported.

use lua_runner::instance::{
    cooperative_stop, interrupt_decision, outcome_of, FailureKind, LuaFailure, ScriptOutcome,
};

fn failure(kind: FailureKind, message: &str) -> LuaFailure {
    LuaFailure { kind, message: message.to_string() }
}

#[test]
fn interrupt_hook_raises_the_marker_only_when_stopping() {
    assert_eq!(interrupt_decision(true), Some("interrupted".to_string()));
    assert_eq!(interrupt_decision(false), None);
}

#[test]
fn the_marker_cause_classifies_as_cooperative() {
    let f = failure(
        FailureKind::Runtime { cause: "interrupted".to_string() },
        "runtime error: interrupted",
    );
    assert!(cooperative_stop(&f));
    assert!(matches!(outcome_of(Err(f)), ScriptOutcome::Stopped));
}

#[test]
fn any_other_cause_is_a_reported_failure() {
    let f = failure(
        FailureKind::Runtime { cause: "Invalid key: NotAKey".to_string() },
        "runtime error: Invalid key: NotAKey",
    );
    assert!(!cooperative_stop(&f));
    match outcome_of(Err(f)) {
        ScriptOutcome::Failed(msg) => assert_eq!(msg, "runtime error: Invalid key: NotAKey"),
        _ => panic!("expected a failure"),
    }

    let f = failure(FailureKind::Other, "syntax error");
    assert!(!cooperative_stop(&f));
    assert!(matches!(outcome_of(Err(f)), ScriptOutcome::Failed(_)));
}

#[test]
fn a_clean_finish_is_completion() {
    assert!(matches!(outcome_of(Ok(())), ScriptOutcome::Completed));
}

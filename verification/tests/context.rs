//! Tests of the context configuration and the translation of engine replies.

use pyrv8::context::{
    advance_outcome, call_async_outcome, collect_args, eval_outcome, get_value_outcome,
    marshal_args, set_current_dir_outcome,
};
use pyrv8::{BridgeError, Context, EngineFault, JsValue, PollOptions};

#[test]
fn context_keeps_its_configuration() {
    let c = Context::new(Some(1000), Some(64 * 1024 * 1024));
    assert_eq!(c.timeout(), Some(1000));
    assert_eq!(c.max_heap_size(), Some(64 * 1024 * 1024));
    let d = Context::new(None, None);
    assert_eq!(d.timeout(), None);
    assert_eq!(d.max_heap_size(), None);
}

#[test]
fn poll_options_defaults() {
    let o = PollOptions::new(None, None);
    assert!(!o.wait_for_inspector);
    assert!(o.pump_message_loop);
    let o = PollOptions::new(Some(true), Some(false));
    assert!(o.wait_for_inspector);
    assert!(!o.pump_message_loop);
}

#[test]
fn eval_outcome_marshals_success() {
    let r = eval_outcome(Ok(serde_json::Value::from(2i64)));
    assert_eq!(r.unwrap(), JsValue::Int(2));
}

#[test]
fn eval_outcome_maps_failure_to_engine_runtime_error() {
    match eval_outcome(Err("Uncaught 1".to_string())) {
        Err(BridgeError::EngineRuntimeError(m)) => assert_eq!(m, "Uncaught 1"),
        other => panic!("expected EngineRuntimeError, got {:?}", other),
    }
}

#[test]
fn missing_name_is_distinguishable_from_thrown_exception() {
    // A lookup of an undefined name and a thrown script exception surface as
    // different error variants, so callers can branch on them.
    let missing = get_value_outcome(Err(EngineFault::NotFound("undefinedName".to_string())));
    let thrown = eval_outcome(Err("Uncaught 1".to_string()));
    match (missing, thrown) {
        (Err(BridgeError::ValueNotFound(n)), Err(BridgeError::EngineRuntimeError(_))) => {
            assert_eq!(n, "undefinedName");
        }
        other => panic!("expected distinct variants, got {:?}", other),
    }
}

#[test]
fn get_value_outcome_passes_values_and_other_faults() {
    let r = get_value_outcome(Ok(serde_json::Value::Bool(true)));
    assert_eq!(r.unwrap(), JsValue::Bool(true));
    match get_value_outcome(Err(EngineFault::Runtime("heap exceeded".to_string()))) {
        Err(BridgeError::EngineRuntimeError(m)) => assert_eq!(m, "heap exceeded"),
        other => panic!("expected EngineRuntimeError, got {:?}", other),
    }
}

#[test]
fn advance_outcome_passes_through() {
    assert_eq!(advance_outcome(Ok(true)).unwrap(), true);
    assert_eq!(advance_outcome(Ok(false)).unwrap(), false);
    match advance_outcome(Err("terminated".to_string())) {
        Err(BridgeError::EngineRuntimeError(m)) => assert_eq!(m, "terminated"),
        other => panic!("expected EngineRuntimeError, got {:?}", other),
    }
}

#[test]
fn set_current_dir_outcome_maps_failure() {
    assert_eq!(set_current_dir_outcome(Ok("/tmp".to_string())).unwrap(), "/tmp");
    match set_current_dir_outcome(Err("not a directory".to_string())) {
        Err(BridgeError::NotADirectory(m)) => assert_eq!(m, "not a directory"),
        other => panic!("expected NotADirectory, got {:?}", other),
    }
}

#[test]
fn marshal_args_keeps_order_and_content() {
    let args = vec![
        JsValue::Int(1),
        JsValue::Str("two".to_string()),
        JsValue::List(vec![JsValue::Bool(true)]),
    ];
    let out = marshal_args(&args);
    assert_eq!(out.len(), 3);
    assert_eq!(out[0], serde_json::Value::from(1i64));
    assert_eq!(out[1], serde_json::Value::String("two".to_string()));
    assert_eq!(
        out[2],
        serde_json::Value::Array(vec![serde_json::Value::Bool(true)])
    );
}

#[test]
fn call_async_outcome_wraps_a_fresh_stepper() {
    let p = call_async_outcome(Ok(())).unwrap();
    assert!(!p.is_done());
    match call_async_outcome(Err("no such function".to_string())) {
        Err(BridgeError::EngineRuntimeError(m)) => assert_eq!(m, "no such function"),
        other => panic!("expected EngineRuntimeError, got {:?}", other.map(|_| ())),
    }
}

#[test]
fn error_messages_carry_their_text() {
    let cases = vec![
        BridgeError::LockFailure("a".to_string()),
        BridgeError::EngineRuntimeError("b".to_string()),
        BridgeError::ValueNotFound("c".to_string()),
        BridgeError::FileNotFound("d".to_string()),
        BridgeError::NotADirectory("e".to_string()),
        BridgeError::InvalidArgument("f".to_string()),
        BridgeError::InvalidState("g".to_string()),
    ];
    let texts: Vec<String> = cases.iter().map(|e| e.message()).collect();
    assert_eq!(texts, vec!["a", "b", "c", "d", "e", "f", "g"]);
}

#[test]
fn async_call_driven_to_completion() {
    // Scenario: a context with a one-second timeout; a synchronous eval
    // returns 2; an asynchronous call hands back a stepper that is not done,
    // and repeated advance+step rounds latch the resolved value.
    let c = Context::new(Some(1000), None);
    assert_eq!(c.timeout(), Some(1000));

    let r = eval_outcome(Ok(serde_json::Value::from(2i64)));
    assert_eq!(r.unwrap(), JsValue::Int(2));

    let mut p = call_async_outcome(Ok(())).unwrap();
    assert!(!p.is_done());

    // Two rounds of pumping before the engine resolves the operation.
    assert_eq!(advance_outcome(Ok(true)).unwrap(), true);
    assert_eq!(p.step(pyrv8::PollOutcome::Pending), false);
    assert_eq!(advance_outcome(Ok(false)).unwrap(), false);
    let done = p.step(pyrv8::PollOutcome::Completed(serde_json::Value::from(99i64)));
    assert!(done);
    assert!(p.is_done());
    assert_eq!(p.result().unwrap(), serde_json::Value::from(99i64));
}

#[test]
fn collect_args_keeps_all_or_reports_first_failure() {
    let all_ok = vec![
        Ok(serde_json::Value::from(1i64)),
        Ok(serde_json::Value::Bool(true)),
    ];
    let vs = collect_args(&all_ok).unwrap();
    assert_eq!(vs, vec![serde_json::Value::from(1i64), serde_json::Value::Bool(true)]);

    let mixed = vec![
        Ok(serde_json::Value::Null),
        Err("first bad".to_string()),
        Err("second bad".to_string()),
    ];
    match collect_args(&mixed) {
        Err(BridgeError::InvalidArgument(m)) => assert_eq!(m, "first bad"),
        other => panic!("expected InvalidArgument, got {:?}", other),
    }

    let empty: Vec<Result<serde_json::Value, String>> = Vec::new();
    assert!(collect_args(&empty).unwrap().is_empty());
}

//! Round-trip tests of the intermediate value representation.

use pyrv8::{from_json, to_json, BridgeError, JsValue};

fn assert_round_trip(v: JsValue) {
    let j = to_json(&v);
    let back = from_json(&j).expect("round trip must succeed");
    assert_eq!(back, v);
}

#[test]
fn round_trip_null() {
    assert_round_trip(JsValue::Null);
}

#[test]
fn round_trip_bool() {
    assert_round_trip(JsValue::Bool(true));
    assert_round_trip(JsValue::Bool(false));
}

#[test]
fn round_trip_int() {
    assert_round_trip(JsValue::Int(0));
    assert_round_trip(JsValue::Int(42));
    assert_round_trip(JsValue::Int(-7));
    assert_round_trip(JsValue::Int(i64::MAX));
    assert_round_trip(JsValue::Int(i64::MIN));
}

#[test]
fn round_trip_text() {
    assert_round_trip(JsValue::Str(String::new()));
    assert_round_trip(JsValue::Str("hello world".to_string()));
    assert_round_trip(JsValue::Str("ünïcødé ✓".to_string()));
}

#[test]
fn round_trip_empty_list() {
    assert_round_trip(JsValue::List(Vec::new()));
}

#[test]
fn round_trip_nested_list() {
    assert_round_trip(JsValue::List(vec![
        JsValue::Int(1),
        JsValue::List(vec![JsValue::Bool(false), JsValue::Null]),
        JsValue::Str("x".to_string()),
    ]));
}

#[test]
fn round_trip_nested_mapping() {
    assert_round_trip(JsValue::Obj(vec![
        ("b".to_string(), JsValue::Int(2)),
        ("a".to_string(), JsValue::Obj(vec![
            ("inner".to_string(), JsValue::List(vec![JsValue::Int(3)])),
        ])),
        ("c".to_string(), JsValue::Null),
    ]));
}

#[test]
fn round_trip_empty_mapping() {
    assert_round_trip(JsValue::Obj(Vec::new()));
}

#[test]
fn round_trip_helper_matches_direct_conversion() {
    let v = JsValue::Obj(vec![
        ("k".to_string(), JsValue::List(vec![JsValue::Int(-1), JsValue::Str("s".to_string())])),
    ]);
    let w = pyrv8::json::round_trip(&v).expect("round trip must succeed");
    assert_eq!(w, v);
}

#[test]
fn mapping_order_is_kept() {
    let v = JsValue::Obj(vec![
        ("z".to_string(), JsValue::Int(1)),
        ("a".to_string(), JsValue::Int(2)),
        ("m".to_string(), JsValue::Int(3)),
    ]);
    let j = to_json(&v);
    let back = from_json(&j).expect("round trip must succeed");
    match back {
        JsValue::Obj(pairs) => {
            let keys: Vec<&str> = pairs.iter().map(|p| p.0.as_str()).collect();
            assert_eq!(keys, vec!["z", "a", "m"]);
        }
        other => panic!("expected a mapping, got {:?}", other),
    }
}

#[test]
fn to_json_builds_real_engine_values() {
    let v = JsValue::List(vec![JsValue::Int(1), JsValue::Bool(true)]);
    let j = to_json(&v);
    let expected = serde_json::Value::Array(vec![
        serde_json::Value::from(1i64),
        serde_json::Value::Bool(true),
    ]);
    assert_eq!(j, expected);
    let o = to_json(&JsValue::Obj(vec![("k".to_string(), JsValue::Str("v".to_string()))]));
    let mut m = serde_json::Map::new();
    m.insert("k".to_string(), serde_json::Value::String("v".to_string()));
    assert_eq!(o, serde_json::Value::Object(m));
}

#[test]
fn from_json_reads_engine_values() {
    let mut m = serde_json::Map::new();
    m.insert("n".to_string(), serde_json::Value::Null);
    m.insert("b".to_string(), serde_json::Value::Bool(false));
    m.insert("i".to_string(), serde_json::Value::from(5i64));
    m.insert("s".to_string(), serde_json::Value::String("t".to_string()));
    m.insert(
        "l".to_string(),
        serde_json::Value::Array(vec![serde_json::Value::from(1i64), serde_json::Value::from(2i64)]),
    );
    let j = serde_json::Value::Object(m);
    let v = from_json(&j).expect("shape is representable");
    assert_eq!(
        v,
        JsValue::Obj(vec![
            ("n".to_string(), JsValue::Null),
            ("b".to_string(), JsValue::Bool(false)),
            ("i".to_string(), JsValue::Int(5)),
            ("s".to_string(), JsValue::Str("t".to_string())),
            ("l".to_string(), JsValue::List(vec![JsValue::Int(1), JsValue::Int(2)])),
        ])
    );
}

#[test]
fn from_json_rejects_floats() {
    let j = serde_json::Value::from(2.5f64);
    match from_json(&j) {
        Err(BridgeError::InvalidArgument(_)) => {}
        other => panic!("expected InvalidArgument, got {:?}", other.map(|_| ())),
    }
}

#[test]
fn from_json_rejects_huge_unsigned() {
    let j = serde_json::Value::from(u64::MAX);
    match from_json(&j) {
        Err(BridgeError::InvalidArgument(_)) => {}
        other => panic!("expected InvalidArgument, got {:?}", other.map(|_| ())),
    }
}

#[test]
fn from_json_rejects_nested_float() {
    let mut inner = serde_json::Map::new();
    inner.insert("inner".to_string(), serde_json::Value::from(1.5f64));
    let mut outer = serde_json::Map::new();
    outer.insert(
        "outer".to_string(),
        serde_json::Value::Array(vec![
            serde_json::Value::from(1i64),
            serde_json::Value::Object(inner),
        ]),
    );
    let j = serde_json::Value::Object(outer);
    match from_json(&j) {
        Err(BridgeError::InvalidArgument(_)) => {}
        other => panic!("expected InvalidArgument, got {:?}", other.map(|_| ())),
    }
}

#[test]
fn well_formedness_requires_unique_keys() {
    let ok = JsValue::Obj(vec![
        ("a".to_string(), JsValue::Int(1)),
        ("b".to_string(), JsValue::Int(2)),
    ]);
    assert!(ok.is_well_formed());

    let dup = JsValue::Obj(vec![
        ("a".to_string(), JsValue::Int(1)),
        ("a".to_string(), JsValue::Int(2)),
    ]);
    assert!(!dup.is_well_formed());

    let nested_dup = JsValue::List(vec![JsValue::Obj(vec![
        ("k".to_string(), JsValue::Null),
        ("k".to_string(), JsValue::Bool(true)),
    ])]);
    assert!(!nested_dup.is_well_formed());

    assert!(JsValue::Null.is_well_formed());
    assert!(JsValue::Obj(Vec::new()).is_well_formed());
}

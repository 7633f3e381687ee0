//! Conversion between the intermediate representation and the engine's value
//! type (`serde_json::Value`).
//!
//! The engine's value type is opaque to the verifier; `json_model` names its
//! mathematical content, and a small set of trusted wrappers state what the
//! engine value library's constructors and accessors do in terms of that
//! model. `to_json` and `from_json` are verified against those statements:
//! converting a well-formed `JsValue` to the engine representation and back
//! yields a value with the same model.

use vstd::prelude::*;

use crate::errors::BridgeError;
use crate::value::{distinct_keys, encodable, jv_wf, lemma_value_encodable, Jv, JsValue};

verus! {

#[verifier::external_type_specification]
#[verifier::external_body]
pub struct ExJsonValue(serde_json::Value);

/// The mathematical content of an engine value: integers as integers, any
/// non-integer number as `Jv::Float`, object entries in iteration order.
pub uninterp spec fn json_model(j: serde_json::Value) -> Jv;

/// Which variant an engine value is, at the granularity the model keeps.
#[derive(Clone, Copy, Debug, PartialEq, Eq, Structural)]
pub enum JsonKind {
    Null,
    Bool,
    Num,
    Str,
    List,
    Obj,
}

/// Relies on serde_json::Value's variants: matching a value against them
/// tells exactly which shape it holds; numbers are integers or floats.
#[verifier::external_body]
fn json_kind(j: &serde_json::Value) -> (r: JsonKind)
    ensures
        (r == JsonKind::Null) == (json_model(*j) is Null),
        (r == JsonKind::Bool) == (json_model(*j) is Bool),
        (r == JsonKind::Num) == (json_model(*j) is Int || json_model(*j) is Float),
        (r == JsonKind::Str) == (json_model(*j) is Str),
        (r == JsonKind::List) == (json_model(*j) is List),
        (r == JsonKind::Obj) == (json_model(*j) is Obj),
{
    match j {
        serde_json::Value::Null => JsonKind::Null,
        serde_json::Value::Bool(_) => JsonKind::Bool,
        serde_json::Value::Number(_) => JsonKind::Num,
        serde_json::Value::String(_) => JsonKind::Str,
        serde_json::Value::Array(_) => JsonKind::List,
        serde_json::Value::Object(_) => JsonKind::Obj,
    }
}

/// Relies on serde_json::Value::Null: the null engine value.
#[verifier::external_body]
fn json_null() -> (r: serde_json::Value)
    ensures
        json_model(r) == Jv::Null,
{
    serde_json::Value::Null
}

/// Relies on serde_json::Value::Bool: holds exactly the given boolean.
#[verifier::external_body]
fn json_bool(b: bool) -> (r: serde_json::Value)
    ensures
        json_model(r) == Jv::Bool(b),
{
    serde_json::Value::Bool(b)
}

/// Relies on serde_json's From<i64> for JsValue: the number holds exactly the
/// given integer.
#[verifier::external_body]
fn json_int(i: i64) -> (r: serde_json::Value)
    ensures
        json_model(r) == Jv::Int(i as int),
{
    serde_json::Value::from(i)
}

/// Relies on serde_json::Value::String: holds exactly the given text.
#[verifier::external_body]
fn json_str(s: String) -> (r: serde_json::Value)
    ensures
        json_model(r) == Jv::Str(s@),
{
    serde_json::Value::String(s)
}

/// Relies on serde_json::Value::Array: holds exactly the given elements in
/// order.
#[verifier::external_body]
fn json_list(items: Vec<serde_json::Value>) -> (r: serde_json::Value)
    ensures
        json_model(r) is List,
        json_model(r)->List_0.len() == items@.len(),
        forall|i: int|
            0 <= i < items@.len() ==> json_model(r)->List_0[i] == json_model(#[trigger] items@[i]),
{
    serde_json::Value::Array(items)
}

/// Relies on serde_json::Value::Object and serde_json::Map's FromIterator:
/// with the `preserve_order` feature the map keeps insertion order, so with
/// pairwise distinct keys the entries are exactly the given pairs in order.
#[verifier::external_body]
fn json_obj(pairs: Vec<(String, serde_json::Value)>) -> (r: serde_json::Value)
    requires
        forall|i: int, j: int|
            0 <= i < j < pairs@.len() ==> (#[trigger] pairs@[i]).0@ != (#[trigger] pairs@[j]).0@,
    ensures
        json_model(r) is Obj,
        json_model(r)->Obj_0.len() == pairs@.len(),
        forall|i: int|
            0 <= i < pairs@.len() ==> json_model(r)->Obj_0[i] == ((#[trigger] pairs@[i]).0@,
            json_model(pairs@[i].1)),
{
    serde_json::Value::Object(serde_json::Map::from_iter(pairs))
}

/// Relies on serde_json::Value::as_bool: Some with the held boolean exactly
/// on Bool values.
#[verifier::external_body]
fn json_as_bool(j: &serde_json::Value) -> (r: bool)
    requires
        json_model(*j) is Bool,
    ensures
        json_model(*j) == Jv::Bool(r),
{
    j.as_bool().unwrap_or(false)
}

/// Relies on serde_json::Value::as_i64: Some exactly when the number is an
/// integer within the signed 64-bit range, with that integer.
#[verifier::external_body]
fn json_as_i64(j: &serde_json::Value) -> (r: Option<i64>)
    requires
        json_model(*j) is Int || json_model(*j) is Float,
    ensures
        r matches Some(n) ==> json_model(*j) == Jv::Int(n as int),
        r is None ==> !encodable(json_model(*j)),
{
    j.as_i64()
}

/// Relies on serde_json::Value::as_str: Some with the held text exactly on
/// String values.
#[verifier::external_body]
fn json_as_str(j: &serde_json::Value) -> (r: String)
    requires
        json_model(*j) is Str,
    ensures
        json_model(*j) == Jv::Str(r@),
{
    j.as_str().unwrap_or("").to_owned()
}

/// Relies on serde_json::Value::as_array: Some with the held elements in
/// order exactly on Array values.
#[verifier::external_body]
fn json_as_list(j: &serde_json::Value) -> (r: Vec<serde_json::Value>)
    requires
        json_model(*j) is List,
    ensures
        json_model(*j)->List_0.len() == r@.len(),
        forall|i: int|
            0 <= i < r@.len() ==> json_model(*j)->List_0[i] == json_model(#[trigger] r@[i]),
{
    match j.as_array() {
        Some(v) => v.clone(),
        None => Vec::new(),
    }
}

/// Relies on serde_json::Value::as_object and serde_json::Map::iter: the map
/// holds pairwise distinct keys, and with the `preserve_order` feature
/// iteration yields the entries in insertion order.
#[verifier::external_body]
fn json_as_obj(j: &serde_json::Value) -> (r: Vec<(String, serde_json::Value)>)
    requires
        json_model(*j) is Obj,
    ensures
        json_model(*j)->Obj_0.len() == r@.len(),
        forall|i: int|
            0 <= i < r@.len() ==> json_model(*j)->Obj_0[i] == ((#[trigger] r@[i]).0@,
            json_model(r@[i].1)),
        forall|i: int, k: int|
            0 <= i < k < r@.len() ==> (#[trigger] r@[i]).0@ != (#[trigger] r@[k]).0@,
{
    match j.as_object() {
        Some(m) => m.iter().map(|(k, v)| (k.clone(), v.clone())).collect(),
        None => Vec::new(),
    }
}

/// Relies on serde_json::Value's derived Clone: the clone holds the same
/// content, so it has the same model.
#[verifier::external_body]
pub(crate) fn json_clone(j: &serde_json::Value) -> (r: serde_json::Value)
    ensures
        json_model(r) == json_model(*j),
{
    j.clone()
}

/// Converts a well-formed value of the intermediate representation into the
/// engine's representation, keeping its model exactly.
pub fn to_json(v: &JsValue) -> (j: serde_json::Value)
    requires
        v.wf(),
    ensures
        json_model(j) == v.jv(),
    decreases *v,
{
    match v {
        JsValue::Null => json_null(),
        JsValue::Bool(b) => json_bool(*b),
        JsValue::Int(i) => json_int(*i),
        JsValue::Str(s) => json_str(s.clone()),
        JsValue::List(items) => {
            let ghost ms = v.jv()->List_0;
            let mut out: Vec<serde_json::Value> = Vec::new();
            let mut k: usize = 0;
            while k < items.len()
                invariant
                    *v == JsValue::List(*items),
                    v.wf(),
                    ms == v.jv()->List_0,
                    ms.len() == items@.len(),
                    k <= items.len(),
                    out@.len() == k,
                    forall|i: int| 0 <= i < k ==> json_model(#[trigger] out@[i]) == ms[i],
                decreases items.len() - k,
            {
                proof {
                    assert(decreases_to!(*v => (*v)->List_0));
                    assert(decreases_to!((*v)->List_0 => (*v)->List_0@));
                    assert(decreases_to!((*v)->List_0@ => (*v)->List_0@[k as int]));
                    assert((*v)->List_0@[k as int] == items@[k as int]);
                    assert(ms[k as int] == items@[k as int].jv());
                    assert(jv_wf(ms[k as int]));
                }
                let e = to_json(&items[k]);
                out.push(e);
                k += 1;
            }
            let r = json_list(out);
            proof {
                assert forall|i: int| 0 <= i < ms.len() implies json_model(r)->List_0[i] == ms[i] by {
                    assert(json_model(r)->List_0[i] == json_model(out@[i]));
                    assert(json_model(out@[i]) == ms[i]);
                }
                assert(json_model(r)->List_0 =~= ms);
                assert(json_model(r) == Jv::List(ms));
            }
            r
        }
        JsValue::Obj(pairs) => {
            let ghost ms = v.jv()->Obj_0;
            let mut out: Vec<(String, serde_json::Value)> = Vec::new();
            let mut k: usize = 0;
            while k < pairs.len()
                invariant
                    *v == JsValue::Obj(*pairs),
                    v.wf(),
                    ms == v.jv()->Obj_0,
                    ms.len() == pairs@.len(),
                    k <= pairs.len(),
                    out@.len() == k,
                    forall|i: int|
                        0 <= i < k ==> (#[trigger] out@[i]).0@ == ms[i].0 && json_model(out@[i].1)
                            == ms[i].1,
                decreases pairs.len() - k,
            {
                proof {
                    assert(decreases_to!(*v => (*v)->Obj_0));
                    assert(decreases_to!((*v)->Obj_0 => (*v)->Obj_0@));
                    assert(decreases_to!((*v)->Obj_0@ => (*v)->Obj_0@[k as int]));
                    assert(decreases_to!((*v)->Obj_0@[k as int] => (*v)->Obj_0@[k as int].1));
                    assert((*v)->Obj_0@[k as int].1 == pairs@[k as int].1);
                    assert(ms[k as int] == (pairs@[k as int].0@, pairs@[k as int].1.jv()));
                    assert(jv_wf(ms[k as int].1));
                }
                let key = pairs[k].0.clone();
                let e = to_json(&pairs[k].1);
                out.push((key, e));
                k += 1;
            }
            proof {
                assert forall|i: int, j: int| 0 <= i < j < out@.len() implies (
                #[trigger] out@[i]).0@ != (#[trigger] out@[j]).0@ by {
                    assert(ms[i].0 != ms[j].0);
                }
            }
            let r = json_obj(out);
            proof {
                assert forall|i: int| 0 <= i < ms.len() implies json_model(r)->Obj_0[i] == ms[i] by {
                    assert(json_model(r)->Obj_0[i] == (out@[i].0@, json_model(out@[i].1)));
                    assert(out@[i].0@ == ms[i].0 && json_model(out@[i].1) == ms[i].1);
                    assert(ms[i] == (ms[i].0, ms[i].1));
                }
                assert(json_model(r)->Obj_0 =~= ms);
                assert(json_model(r) == Jv::Obj(ms));
            }
            r
        }
    }
}

/// Converts an engine value into the intermediate representation.
///
/// Succeeds exactly when the engine value's model is encodable (no
/// non-integer numbers, every integer within the signed 64-bit range); the
/// result is then well formed and has the same model. Any other shape is an
/// `InvalidArgument` error.
pub fn from_json(j: &serde_json::Value) -> (r: Result<JsValue, BridgeError>)
    ensures
        r matches Ok(v) ==> v.wf() && v.jv() == json_model(*j),
        r is Ok <==> encodable(json_model(*j)),
        r matches Err(e) ==> e is InvalidArgument,
    decreases json_model(*j),
{
    match json_kind(j) {
        JsonKind::Null => Ok(JsValue::Null),
        JsonKind::Bool => Ok(JsValue::Bool(json_as_bool(j))),
        JsonKind::Num => match json_as_i64(j) {
            Some(n) => Ok(JsValue::Int(n)),
            None => Err(
                BridgeError::InvalidArgument(
                    "number not representable as a 64-bit integer".to_owned(),
                ),
            ),
        },
        JsonKind::Str => Ok(JsValue::Str(json_as_str(j))),
        JsonKind::List => {
            let elems = json_as_list(j);
            let ghost ms = json_model(*j)->List_0;
            let mut out: Vec<JsValue> = Vec::new();
            let mut k: usize = 0;
            while k < elems.len()
                invariant
                    json_model(*j) is List,
                    ms == json_model(*j)->List_0,
                    ms.len() == elems@.len(),
                    forall|i: int| 0 <= i < elems@.len() ==> ms[i] == json_model(#[trigger] elems@[i]),
                    k <= elems.len(),
                    out@.len() == k,
                    forall|i: int| 0 <= i < k ==> (#[trigger] out@[i]).jv() == ms[i] && out@[i].wf(),
                decreases elems.len() - k,
            {
                proof {
                    assert(decreases_to!(json_model(*j) => json_model(*j)->List_0));
                    assert(decreases_to!(json_model(*j)->List_0 => json_model(*j)->List_0[k as int]));
                    assert(json_model(*j)->List_0[k as int] == json_model(elems@[k as int]));
                }
                match from_json(&elems[k]) {
                    Ok(v) => {
                        out.push(v);
                    }
                    Err(e) => {
                        proof {
                            assert(!encodable(ms[k as int]));
                            assert(!encodable(json_model(*j)));
                        }
                        return Err(e);
                    }
                }
                k += 1;
            }
            let r = JsValue::List(out);
            proof {
                assert forall|i: int| 0 <= i < ms.len() implies r.jv()->List_0[i] == ms[i] by {
                    assert(r.jv()->List_0[i] == out@[i].jv());
                }
                assert(r.jv()->List_0 =~= ms);
                assert(r.jv() == Jv::List(ms) && r.jv() == json_model(*j));
                assert forall|i: int| 0 <= i < ms.len() implies jv_wf(#[trigger] ms[i])
                    && encodable(#[trigger] ms[i]) by {
                    assert(out@[i].jv() == ms[i] && out@[i].wf());
                    lemma_value_encodable(out@[i]);
                }
            }
            Ok(r)
        }
        JsonKind::Obj => {
            let entries = json_as_obj(j);
            let ghost ms = json_model(*j)->Obj_0;
            let mut out: Vec<(String, JsValue)> = Vec::new();
            let mut k: usize = 0;
            while k < entries.len()
                invariant
                    json_model(*j) is Obj,
                    ms == json_model(*j)->Obj_0,
                    ms.len() == entries@.len(),
                    forall|i: int|
                        0 <= i < entries@.len() ==> ms[i] == ((#[trigger] entries@[i]).0@,
                        json_model(entries@[i].1)),
                    forall|i: int, t: int|
                        0 <= i < t < entries@.len() ==> (#[trigger] entries@[i]).0@ != (
                        #[trigger] entries@[t]).0@,
                    k <= entries.len(),
                    out@.len() == k,
                    forall|i: int|
                        0 <= i < k ==> (#[trigger] out@[i]).0@ == ms[i].0 && out@[i].1.jv()
                            == ms[i].1 && out@[i].1.wf(),
                decreases entries.len() - k,
            {
                proof {
                    assert(decreases_to!(json_model(*j) => json_model(*j)->Obj_0));
                    assert(decreases_to!(json_model(*j)->Obj_0 => json_model(*j)->Obj_0[k as int]));
                    assert(decreases_to!(json_model(*j)->Obj_0[k as int] => json_model(
                        *j,
                    )->Obj_0[k as int].1));
                    assert(json_model(*j)->Obj_0[k as int].1 == json_model(entries@[k as int].1));
                }
                let key = entries[k].0.clone();
                match from_json(&entries[k].1) {
                    Ok(v) => {
                        out.push((key, v));
                    }
                    Err(e) => {
                        proof {
                            assert(!encodable(ms[k as int].1));
                            assert(!encodable(json_model(*j)));
                        }
                        return Err(e);
                    }
                }
                k += 1;
            }
            let r = JsValue::Obj(out);
            proof {
                assert forall|i: int| 0 <= i < ms.len() implies r.jv()->Obj_0[i] == ms[i] by {
                    assert(r.jv()->Obj_0[i] == (out@[i].0@, out@[i].1.jv()));
                    assert(ms[i] == (ms[i].0, ms[i].1));
                }
                assert(r.jv()->Obj_0 =~= ms);
                assert(r.jv() == Jv::Obj(ms) && r.jv() == json_model(*j));
                assert forall|i: int, t: int| 0 <= i < t < ms.len() implies (#[trigger] ms[i]).0
                    != (#[trigger] ms[t]).0 by {
                    assert(ms[i].0 == entries@[i].0@ && ms[t].0 == entries@[t].0@);
                    assert(entries@[i].0@ != entries@[t].0@);
                }
                assert(distinct_keys(ms));
                assert forall|i: int| 0 <= i < ms.len() implies jv_wf((#[trigger] ms[i]).1)
                    && encodable((#[trigger] ms[i]).1) by {
                    assert(out@[i].1.jv() == ms[i].1 && out@[i].1.wf());
                    lemma_value_encodable(out@[i].1);
                }
            }
            Ok(r)
        }
    }
}

/// Round trip: marshalling a well-formed value into the engine's
/// representation and back always succeeds and keeps its model exactly.
pub fn round_trip(v: &JsValue) -> (r: Result<JsValue, BridgeError>)
    requires
        v.wf(),
    ensures
        r matches Ok(w) && w.wf() && w.jv() == v.jv(),
{
    let j = to_json(v);
    proof {
        lemma_value_encodable(*v);
    }
    from_json(&j)
}

} // verus!

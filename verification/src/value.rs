//! The JSON-compatible intermediate value representation.
//!
//! `JsValue` is the host-facing shape of every datum that crosses the bridge:
//! null, boolean, integer, text, ordered list, or mapping with unique text
//! keys. `Jv` is its mathematical model, which also models the engine's own
//! value type; the engine can additionally hold non-integer numbers, which
//! this representation does not carry (`Jv::Float` stands for them in the
//! model only).

use vstd::prelude::*;

verus! {

/// The mathematical model of a JSON-like value.
///
/// `Float` stands for any engine-side number that is not an integer; such
/// numbers are never carried by `JsValue` and cannot be told apart in the model.
pub enum Jv {
    Null,
    Bool(bool),
    Int(int),
    Str(Seq<char>),
    List(Seq<Jv>),
    Obj(Seq<(Seq<char>, Jv)>),
    Float,
}

/// Whether the keys of one mapping are pairwise distinct.
pub open spec fn distinct_keys(pairs: Seq<(Seq<char>, Jv)>) -> bool {
    forall|i: int, j: int|
        0 <= i < j < pairs.len() ==> (#[trigger] pairs[i]).0 != (#[trigger] pairs[j]).0
}

/// Well-formedness of a model value: every mapping in it has unique keys.
pub open spec fn jv_wf(m: Jv) -> bool
    decreases m,
{
    match m {
        Jv::List(items) => forall|i: int| 0 <= i < items.len() ==> jv_wf(#[trigger] items[i]),
        Jv::Obj(pairs) => distinct_keys(pairs) && forall|i: int|
            0 <= i < pairs.len() ==> jv_wf((#[trigger] pairs[i]).1),
        _ => true,
    }
}

/// Whether a model value can be carried by `JsValue`: no non-integer numbers,
/// and every integer within the signed 64-bit range.
pub open spec fn encodable(m: Jv) -> bool
    decreases m,
{
    match m {
        Jv::Null => true,
        Jv::Bool(_) => true,
        Jv::Int(k) => i64::MIN <= k <= i64::MAX,
        Jv::Str(_) => true,
        Jv::List(items) => forall|i: int| 0 <= i < items.len() ==> encodable(#[trigger] items[i]),
        Jv::Obj(pairs) => forall|i: int|
            0 <= i < pairs.len() ==> encodable((#[trigger] pairs[i]).1),
        Jv::Float => false,
    }
}

/// A value of the intermediate representation.
#[derive(Debug, PartialEq)]
pub enum JsValue {
    Null,
    Bool(bool),
    Int(i64),
    Str(String),
    List(Vec<JsValue>),
    Obj(Vec<(String, JsValue)>),
}

impl JsValue {
    /// The model of this value.
    pub open spec fn jv(self) -> Jv
        decreases self,
    {
        match self {
            JsValue::Null => Jv::Null,
            JsValue::Bool(b) => Jv::Bool(b),
            JsValue::Int(i) => Jv::Int(i as int),
            JsValue::Str(s) => Jv::Str(s@),
            JsValue::List(items) => Jv::List(
                Seq::new(
                    items@.len(),
                    |i: int|
                        if 0 <= i < items@.len() {
                            items@[i].jv()
                        } else {
                            Jv::Null
                        },
                ),
            ),
            JsValue::Obj(pairs) => Jv::Obj(
                Seq::new(
                    pairs@.len(),
                    |i: int|
                        if 0 <= i < pairs@.len() {
                            (pairs@[i].0@, pairs@[i].1.jv())
                        } else {
                            (Seq::empty(), Jv::Null)
                        },
                ),
            ),
        }
    }

    /// Well-formedness: every mapping has unique keys.
    pub open spec fn wf(self) -> bool {
        jv_wf(self.jv())
    }
}

impl JsValue {
    /// Decides well-formedness: every mapping in the value has pairwise
    /// distinct keys.
    pub fn is_well_formed(&self) -> (r: bool)
        ensures
            r == self.wf(),
        decreases *self,
    {
        match self {
            JsValue::Null => true,
            JsValue::Bool(_) => true,
            JsValue::Int(_) => true,
            JsValue::Str(_) => true,
            JsValue::List(items) => {
                let ghost ms = self.jv()->List_0;
                let mut k: usize = 0;
                while k < items.len()
                    invariant
                        *self == JsValue::List(*items),
                        ms == self.jv()->List_0,
                        ms.len() == items@.len(),
                        k <= items.len(),
                        forall|i: int| 0 <= i < k ==> jv_wf(#[trigger] ms[i]),
                    decreases items.len() - k,
                {
                    proof {
                        assert(decreases_to!(*self => (*self)->List_0));
                        assert(decreases_to!((*self)->List_0 => (*self)->List_0@));
                        assert(decreases_to!((*self)->List_0@ => (*self)->List_0@[k as int]));
                        assert((*self)->List_0@[k as int] == items@[k as int]);
                    }
                    if !items[k].is_well_formed() {
                        proof {
                            assert(ms[k as int] == items@[k as int].jv());
                            assert(!jv_wf(ms[k as int]));
                        }
                        return false;
                    }
                    proof {
                        assert(ms[k as int] == items@[k as int].jv());
                    }
                    k += 1;
                }
                true
            }
            JsValue::Obj(pairs) => {
                let ghost ms = self.jv()->Obj_0;
                let mut k: usize = 0;
                while k < pairs.len()
                    invariant
                        *self == JsValue::Obj(*pairs),
                        ms == self.jv()->Obj_0,
                        ms.len() == pairs@.len(),
                        k <= pairs.len(),
                        forall|i: int| 0 <= i < k ==> jv_wf((#[trigger] ms[i]).1),
                        forall|a: int, b: int|
                            0 <= a < b < ms.len() && a < k ==> (#[trigger] ms[a]).0 != (
                            #[trigger] ms[b]).0,
                    decreases pairs.len() - k,
                {
                    let mut t: usize = k + 1;
                    while t < pairs.len()
                        invariant
                            *self == JsValue::Obj(*pairs),
                            ms == self.jv()->Obj_0,
                            ms.len() == pairs@.len(),
                            k < t,
                            k < pairs.len(),
                            t <= pairs.len(),
                            forall|b: int| k < b < t ==> ms[k as int].0 != (#[trigger] ms[b]).0,
                        decreases pairs.len() - t,
                    {
                        if pairs[k].0.eq(&pairs[t].0) {
                            proof {
                                assert(ms[k as int].0 == pairs@[k as int].0@);
                                assert(ms[t as int].0 == pairs@[t as int].0@);
                                assert(!distinct_keys(ms));
                            }
                            return false;
                        }
                        proof {
                            assert(ms[k as int].0 == pairs@[k as int].0@);
                            assert(ms[t as int].0 == pairs@[t as int].0@);
                        }
                        t += 1;
                    }
                    proof {
                        assert(decreases_to!(*self => (*self)->Obj_0));
                        assert(decreases_to!((*self)->Obj_0 => (*self)->Obj_0@));
                        assert(decreases_to!((*self)->Obj_0@ => (*self)->Obj_0@[k as int]));
                        assert(decreases_to!((*self)->Obj_0@[k as int] => (*self)->Obj_0@[k as int].1));
                        assert((*self)->Obj_0@[k as int].1 == pairs@[k as int].1);
                    }
                    if !pairs[k].1.is_well_formed() {
                        proof {
                            assert(ms[k as int].1 == pairs@[k as int].1.jv());
                            assert(!jv_wf(ms[k as int].1));
                        }
                        return false;
                    }
                    proof {
                        assert(ms[k as int].1 == pairs@[k as int].1.jv());
                    }
                    k += 1;
                }
                proof {
                    assert(distinct_keys(ms));
                }
                true
            }
        }
    }
}

impl Clone for JsValue {
    /// Cloning keeps the model of the value.
    fn clone(&self) -> (r: Self)
        ensures
            r.jv() == self.jv(),
        decreases *self,
    {
        match self {
            JsValue::Null => JsValue::Null,
            JsValue::Bool(b) => JsValue::Bool(*b),
            JsValue::Int(i) => JsValue::Int(*i),
            JsValue::Str(s) => JsValue::Str(s.clone()),
            JsValue::List(items) => {
                let mut out: Vec<JsValue> = Vec::new();
                let mut k: usize = 0;
                while k < items.len()
                    invariant
                        *self == JsValue::List(*items),
                        k <= items.len(),
                        out@.len() == k,
                        forall|i: int| 0 <= i < k ==> (#[trigger] out@[i]).jv() == items@[i].jv(),
                    decreases items.len() - k,
                {
                    proof {
                        assert(decreases_to!(*self => (*self)->List_0));
                        assert(decreases_to!((*self)->List_0 => (*self)->List_0@));
                        assert(decreases_to!((*self)->List_0@ => (*self)->List_0@[k as int]));
                        assert((*self)->List_0@[k as int] == items@[k as int]);
                    }
                    let c = items[k].clone();
                    out.push(c);
                    k += 1;
                }
                proof {
                    assert(JsValue::List(out).jv()->List_0 =~= self.jv()->List_0);
                }
                JsValue::List(out)
            }
            JsValue::Obj(pairs) => {
                let mut out: Vec<(String, JsValue)> = Vec::new();
                let mut k: usize = 0;
                while k < pairs.len()
                    invariant
                        *self == JsValue::Obj(*pairs),
                        k <= pairs.len(),
                        out@.len() == k,
                        forall|i: int|
                            0 <= i < k ==> (#[trigger] out@[i]).0@ == pairs@[i].0@ && out@[i].1.jv()
                                == pairs@[i].1.jv(),
                    decreases pairs.len() - k,
                {
                    proof {
                        assert(decreases_to!(*self => (*self)->Obj_0));
                        assert(decreases_to!((*self)->Obj_0 => (*self)->Obj_0@));
                        assert(decreases_to!((*self)->Obj_0@ => (*self)->Obj_0@[k as int]));
                        assert(decreases_to!((*self)->Obj_0@[k as int] => (*self)->Obj_0@[k as int].1));
                        assert((*self)->Obj_0@[k as int].1 == pairs@[k as int].1);
                    }
                    let c = (pairs[k].0.clone(), pairs[k].1.clone());
                    out.push(c);
                    k += 1;
                }
                proof {
                    assert(JsValue::Obj(out).jv()->Obj_0 =~= self.jv()->Obj_0);
                }
                JsValue::Obj(out)
            }
        }
    }
}

/// Every value the representation can carry has an encodable model.
pub proof fn lemma_value_encodable(v: JsValue)
    ensures
        encodable(v.jv()),
    decreases v,
{
    match v {
        JsValue::List(items) => {
            let ms = v.jv()->List_0;
            assert forall|i: int| 0 <= i < ms.len() implies encodable(#[trigger] ms[i]) by {
                lemma_value_encodable(items@[i]);
                assert(ms[i] == items@[i].jv());
            }
        }
        JsValue::Obj(pairs) => {
            let ms = v.jv()->Obj_0;
            assert forall|i: int| 0 <= i < ms.len() implies encodable((#[trigger] ms[i]).1) by {
                lemma_value_encodable(pairs@[i].1);
                assert(ms[i].1 == pairs@[i].1.jv());
            }
        }
        _ => {}
    }
}

} // verus!

//! The engine context: its configuration and the translation of engine
//! replies into the bridge's conventions.
//!
//! The engine itself runs outside this crate; the caller forwards each
//! operation to it under the context's exclusive-access discipline and hands
//! the reply back here. What stands here is the logic of each operation:
//! which configuration a context was created with, which poll options an
//! advance uses, and which error of the taxonomy each engine reply maps to.

use vstd::prelude::*;

use crate::errors::BridgeError;
use crate::json::{from_json, json_clone, json_model};
use crate::stepper::JSPromise;
use crate::json::to_json;
use crate::value::{encodable, JsValue};

verus! {

/// A fault reported by the engine, split by what a caller may branch on:
/// a named value that was not found, or any other failure with its message.
pub enum EngineFault {
    NotFound(String),
    Runtime(String),
}

/// The configuration one engine context was created with: an execution
/// timeout in milliseconds and an optional heap limit in bytes. The engine
/// enforces both; this layer only carries them.
pub struct Context {
    timeout_ms: Option<u64>,
    max_heap_size: Option<usize>,
}

impl Context {
    /// The configured timeout in milliseconds, if one was given.
    pub closed spec fn timeout_model(self) -> Option<u64> {
        self.timeout_ms
    }

    /// The configured heap limit in bytes, if one was given.
    pub closed spec fn max_heap_size_model(self) -> Option<usize> {
        self.max_heap_size
    }

    /// A context configuration. No failure mode: the engine is created from
    /// it by the caller, outside this crate.
    pub fn new(timeout_ms: Option<u64>, max_heap_size: Option<usize>) -> (c: Self)
        ensures
            c.timeout_model() == timeout_ms,
            c.max_heap_size_model() == max_heap_size,
    {
        Context { timeout_ms, max_heap_size }
    }

    /// The configured timeout in milliseconds.
    pub fn timeout(&self) -> (r: Option<u64>)
        ensures
            r == self.timeout_model(),
    {
        self.timeout_ms
    }

    /// The configured heap limit in bytes.
    pub fn max_heap_size(&self) -> (r: Option<usize>)
        ensures
            r == self.max_heap_size_model(),
    {
        self.max_heap_size
    }
}

/// The options of one event-loop advance. Where the caller gives none, the
/// engine's defaults hold: do not wait for an attached inspector, do pump
/// the lower-level message queue.
pub struct PollOptions {
    pub wait_for_inspector: bool,
    pub pump_message_loop: bool,
}

impl PollOptions {
    /// Resolves the caller's choices against the defaults.
    pub fn new(wait_for_inspector: Option<bool>, pump_message_loop: Option<bool>) -> (r: Self)
        ensures
            r.wait_for_inspector == match wait_for_inspector {
                Some(b) => b,
                None => false,
            },
            r.pump_message_loop == match pump_message_loop {
                Some(b) => b,
                None => true,
            },
    {
        PollOptions {
            wait_for_inspector: match wait_for_inspector {
                Some(b) => b,
                None => false,
            },
            pump_message_loop: match pump_message_loop {
                Some(b) => b,
                None => true,
            },
        }
    }
}

/// The outcome of a synchronous evaluation or call: the engine's value
/// marshalled into the intermediate representation, a value that cannot be
/// marshalled as `InvalidArgument`, and any engine failure as
/// `EngineRuntimeError` with the engine's message.
pub fn eval_outcome(reply: Result<serde_json::Value, String>) -> (r: Result<JsValue, BridgeError>)
    ensures
        reply matches Ok(j) ==> (encodable(json_model(j)) ==> (r matches Ok(v) && v.wf()
            && v.jv() == json_model(j))),
        reply matches Ok(j) ==> (!encodable(json_model(j)) ==> (r matches Err(e)
            && e is InvalidArgument)),
        reply matches Err(m) ==> (r matches Err(e) && e matches BridgeError::EngineRuntimeError(t)
            && t@ == m@),
{
    match reply {
        Ok(j) => from_json(&j),
        Err(m) => Err(BridgeError::EngineRuntimeError(m)),
    }
}

/// The outcome of reading a named global: as `eval_outcome`, except that a
/// missing name is a `ValueNotFound` error carrying the engine's text, which
/// a caller can tell apart from every other engine failure.
pub fn get_value_outcome(reply: Result<serde_json::Value, EngineFault>) -> (r: Result<
    JsValue,
    BridgeError,
>)
    ensures
        reply matches Ok(j) ==> (encodable(json_model(j)) ==> (r matches Ok(v) && v.wf()
            && v.jv() == json_model(j))),
        reply matches Ok(j) ==> (!encodable(json_model(j)) ==> (r matches Err(e)
            && e is InvalidArgument)),
        reply matches Err(f) ==> (f matches EngineFault::NotFound(m) ==> (r matches Err(e)
            && e matches BridgeError::ValueNotFound(t) && t@ == m@)),
        reply matches Err(f) ==> (f matches EngineFault::Runtime(m) ==> (r matches Err(e)
            && e matches BridgeError::EngineRuntimeError(t) && t@ == m@)),
{
    match reply {
        Ok(j) => from_json(&j),
        Err(EngineFault::NotFound(m)) => Err(BridgeError::ValueNotFound(m)),
        Err(EngineFault::Runtime(m)) => Err(BridgeError::EngineRuntimeError(m)),
    }
}

/// The outcome of one event-loop advance: the engine's report of whether
/// work remains is passed through; any engine failure is an
/// `EngineRuntimeError` with the engine's message.
pub fn advance_outcome(reply: Result<bool, String>) -> (r: Result<bool, BridgeError>)
    ensures
        reply matches Ok(b) ==> r == Result::<bool, BridgeError>::Ok(b),
        reply matches Err(m) ==> (r matches Err(e) && e matches BridgeError::EngineRuntimeError(t)
            && t@ == m@),
{
    match reply {
        Ok(b) => Ok(b),
        Err(m) => Err(BridgeError::EngineRuntimeError(m)),
    }
}

/// The outcome of changing the context's working directory: success passes
/// through; a failure is a `NotADirectory` error with the engine's message.
pub fn set_current_dir_outcome(reply: Result<String, String>) -> (r: Result<String, BridgeError>)
    ensures
        reply matches Ok(p) ==> (r matches Ok(q) && q@ == p@),
        reply matches Err(m) ==> (r matches Err(e) && e matches BridgeError::NotADirectory(t)
            && t@ == m@),
{
    match reply {
        Ok(p) => Ok(p),
        Err(m) => Err(BridgeError::NotADirectory(m)),
    }
}

/// Marshals the arguments of a call into the engine's representation, in
/// order.
pub fn marshal_args(args: &Vec<JsValue>) -> (r: Vec<serde_json::Value>)
    requires
        forall|i: int| 0 <= i < args@.len() ==> (#[trigger] args@[i]).wf(),
    ensures
        r@.len() == args@.len(),
        forall|i: int| 0 <= i < args@.len() ==> json_model(#[trigger] r@[i]) == args@[i].jv(),
{
    let mut out: Vec<serde_json::Value> = Vec::new();
    let mut k: usize = 0;
    while k < args.len()
        invariant
            forall|i: int| 0 <= i < args@.len() ==> (#[trigger] args@[i]).wf(),
            k <= args.len(),
            out@.len() == k,
            forall|i: int| 0 <= i < k ==> json_model(#[trigger] out@[i]) == args@[i].jv(),
        decreases args.len() - k,
    {
        let e = to_json(&args[k]);
        out.push(e);
        k += 1;
    }
    out
}

/// Collects the per-argument conversion results of a call: every engine
/// value in order where all conversions succeeded, else an `InvalidArgument`
/// error carrying the first failure's message.
pub fn collect_args(parts: &Vec<Result<serde_json::Value, String>>) -> (r: Result<
    Vec<serde_json::Value>,
    BridgeError,
>)
    ensures
        r matches Ok(vs) ==> (vs@.len() == parts@.len() && forall|i: int|
            0 <= i < parts@.len() ==> ((#[trigger] parts@[i]) matches Ok(v) && json_model(vs@[i])
                == json_model(v))),
        r matches Err(e) ==> (e matches BridgeError::InvalidArgument(t) && exists|i: int|
            0 <= i < parts@.len() && ((#[trigger] parts@[i]) matches Err(m) && t@ == m@) && (
            forall|q: int| 0 <= q < i ==> (#[trigger] parts@[q]) is Ok)),
        (r is Ok) <==> (forall|i: int| 0 <= i < parts@.len() ==> (#[trigger] parts@[i]) is Ok),
{
    let mut out: Vec<serde_json::Value> = Vec::new();
    let mut k: usize = 0;
    while k < parts.len()
        invariant
            k <= parts.len(),
            out@.len() == k,
            forall|i: int|
                0 <= i < k ==> ((#[trigger] parts@[i]) matches Ok(v) && json_model(out@[i])
                    == json_model(v)),
        decreases parts.len() - k,
    {
        match &parts[k] {
            Ok(v) => {
                out.push(json_clone(v));
            }
            Err(m) => {
                proof {
                    assert(parts@[k as int] is Err);
                }
                return Err(BridgeError::InvalidArgument(m.clone()));
            }
        }
        k += 1;
    }
    Ok(out)
}

/// The outcome of starting an asynchronous call: where the engine accepted
/// it, a fresh stepper with nothing latched; where it failed, an
/// `EngineRuntimeError` with the engine's message.
pub fn call_async_outcome(reply: Result<(), String>) -> (r: Result<JSPromise, BridgeError>)
    ensures
        reply is Ok ==> (r matches Ok(p) && p.outcome_model() is None),
        reply matches Err(m) ==> (r matches Err(e) && e matches BridgeError::EngineRuntimeError(t)
            && t@ == m@),
{
    match reply {
        Ok(()) => Ok(JSPromise::new()),
        Err(m) => Err(BridgeError::EngineRuntimeError(m)),
    }
}

} // verus!

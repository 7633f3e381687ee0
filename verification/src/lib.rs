//! A verified marshalling layer for a bridge between a host language and an
//! embedded JavaScript engine.
//!
//! The engine itself, the host object system, and all I/O live outside this
//! crate. What stands here is the logic that can be pinned down by contracts:
//! the JSON-compatible intermediate value representation and its conversion to
//! and from the engine's value type, the cooperative stepper that polls a
//! pending asynchronous engine operation to completion, the error taxonomy,
//! and the per-operation translation of engine replies into that taxonomy.

pub mod context;
pub mod errors;
pub mod json;
pub mod module;
pub mod stepper;
pub mod value;

pub use context::{Context, EngineFault, PollOptions};
pub use errors::BridgeError;
pub use value::{Jv, JsValue};
pub use json::{from_json, to_json};
pub use module::{JsHandle, JsModule};
pub use stepper::{JSPromise, PollOutcome};

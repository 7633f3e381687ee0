//! The cooperative future stepper.
//!
//! A `JSPromise` stands for one pending asynchronous engine operation. The
//! caller polls the engine (outside this crate) and hands each poll outcome to
//! `step`, which latches the first resolution: a success keeps the resolved
//! engine value, whatever its shape; a failure keeps the engine's message
//! text. Once an outcome is latched it never changes; `result` and `exception`
//! read it, and fail with `InvalidState` before the first resolution. The
//! caller converts the returned engine value to its own representation (for
//! plain values, `from_json`).

use vstd::prelude::*;

use crate::errors::BridgeError;
use crate::json::{json_clone, json_model};
use crate::value::Jv;

verus! {

/// What one poll of the pending engine operation reported: still pending,
/// resolved with an engine value, or resolved with a failure message.
pub enum PollOutcome {
    Pending,
    Completed(serde_json::Value),
    Failed(String),
}

impl PollOutcome {
    /// The mathematical content of a poll outcome.
    pub open spec fn model(self) -> StepEvent {
        match self {
            PollOutcome::Pending => StepEvent::Pending,
            PollOutcome::Completed(j) => StepEvent::Completed(json_model(j)),
            PollOutcome::Failed(m) => StepEvent::Failed(m@),
        }
    }
}

/// The model of a poll outcome: the engine value replaced by its model.
pub enum StepEvent {
    Pending,
    Completed(Jv),
    Failed(Seq<char>),
}

/// The model of a stepper's latched outcome: nothing yet, a success value's
/// model, or a failure's message text.
pub type OutcomeModel = Option<Result<Jv, Seq<char>>>;

/// How one step event changes a latched outcome: the first resolution is
/// latched, success value or failure text; everything after a latch is
/// ignored.
pub open spec fn step_model(pre: OutcomeModel, ev: StepEvent) -> OutcomeModel {
    if pre is Some {
        pre
    } else {
        match ev {
            StepEvent::Pending => None,
            StepEvent::Completed(m) => Some(Ok(m)),
            StepEvent::Failed(t) => Some(Err(t)),
        }
    }
}

/// A latched outcome after a whole sequence of step events, first to last.
pub open spec fn run_model(pre: OutcomeModel, evs: Seq<StepEvent>) -> OutcomeModel
    decreases evs.len(),
{
    if evs.len() == 0 {
        pre
    } else {
        run_model(step_model(pre, evs[0]), evs.skip(1))
    }
}

/// Once an outcome is latched, no sequence of further step events changes it.
pub proof fn lemma_outcome_latched(pre: OutcomeModel, evs: Seq<StepEvent>)
    requires
        pre is Some,
    ensures
        run_model(pre, evs) == pre,
    decreases evs.len(),
{
    if evs.len() > 0 {
        lemma_outcome_latched(pre, evs.skip(1));
    }
}

/// Being done is one-way: an already latched outcome is never changed by an
/// event, and as soon as an event latches one, any further events leave it
/// latched and unchanged.
pub proof fn lemma_done_monotone(pre: OutcomeModel, ev: StepEvent, later: Seq<StepEvent>)
    ensures
        pre is Some ==> step_model(pre, ev) == pre,
        step_model(pre, ev) is Some ==> run_model(step_model(pre, ev), later) == step_model(
            pre,
            ev,
        ),
{
    if step_model(pre, ev) is Some {
        lemma_outcome_latched(step_model(pre, ev), later);
    }
}

/// One pending asynchronous engine operation, polled to completion by the
/// caller.
pub struct JSPromise {
    outcome: Option<Result<serde_json::Value, String>>,
}

impl JSPromise {
    /// The model of the latched outcome.
    pub closed spec fn outcome_model(self) -> OutcomeModel {
        match self.outcome {
            None => None,
            Some(Ok(j)) => Some(Ok(json_model(j))),
            Some(Err(m)) => Some(Err(m@)),
        }
    }

    /// Whether an outcome has been latched.
    pub open spec fn done(self) -> bool {
        self.outcome_model() is Some
    }

    /// A fresh stepper: nothing latched.
    pub fn new() -> (s: Self)
        ensures
            s.outcome_model() is None,
    {
        JSPromise { outcome: None }
    }

    /// True exactly once an outcome has been latched. No side effects.
    pub fn is_done(&self) -> (r: bool)
        ensures
            r == self.done(),
    {
        self.outcome.is_some()
    }

    /// Advances the stepper by one poll outcome.
    ///
    /// The first resolution is latched, whatever value or failure it
    /// carries; afterwards every call returns true and changes nothing.
    /// Returns true exactly when an outcome is (or already was) latched.
    pub fn step(&mut self, event: PollOutcome) -> (r: bool)
        ensures
            final(self).outcome_model() == step_model(
                old(self).outcome_model(),
                event.model(),
            ),
            r == (final(self).outcome_model() is Some),
    {
        if self.outcome.is_some() {
            return true;
        }
        match event {
            PollOutcome::Pending => false,
            PollOutcome::Completed(j) => {
                self.outcome = Some(Ok(j));
                true
            }
            PollOutcome::Failed(m) => {
                self.outcome = Some(Err(m));
                true
            }
        }
    }

    /// The latched success value.
    ///
    /// Fails with `InvalidState` before an outcome is latched; re-raises the
    /// latched failure as `EngineRuntimeError`; returns the latched engine
    /// value otherwise, with the same content however often it is read.
    pub fn result(&self) -> (r: Result<serde_json::Value, BridgeError>)
        ensures
            self.outcome_model() is None ==> (r matches Err(e) && e is InvalidState),
            self.outcome_model() matches Some(Ok(m)) ==> (r matches Ok(j) && json_model(j) == m),
            self.outcome_model() matches Some(Err(t)) ==> (r matches Err(e) && e matches
                BridgeError::EngineRuntimeError(s) && s@ == t),
    {
        match &self.outcome {
            None => Err(BridgeError::InvalidState("result is not ready".to_owned())),
            Some(Ok(j)) => Ok(json_clone(j)),
            Some(Err(m)) => Err(BridgeError::EngineRuntimeError(m.clone())),
        }
    }

    /// The latched failure, if any.
    ///
    /// Fails with `InvalidState` before an outcome is latched; returns `None`
    /// after a success and the latched failure after a failure.
    pub fn exception(&self) -> (r: Result<Option<BridgeError>, BridgeError>)
        ensures
            self.outcome_model() is None ==> (r matches Err(e) && e is InvalidState),
            self.outcome_model() matches Some(Ok(m)) ==> (r matches Ok(o) && o is None),
            self.outcome_model() matches Some(Err(t)) ==> (r matches Ok(o) && o matches Some(e)
                && e matches BridgeError::EngineRuntimeError(s) && s@ == t),
    {
        match &self.outcome {
            None => Err(BridgeError::InvalidState("exception is not set".to_owned())),
            Some(Ok(_)) => Ok(None),
            Some(Err(m)) => Ok(Some(BridgeError::EngineRuntimeError(m.clone()))),
        }
    }
}

} // verus!

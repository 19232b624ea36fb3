//! The script runtime as the body packaging uses it, and the record of the
//! calls that were made into it.

use vstd::prelude::*;
use crate::types::{JsObject, JsValue};

verus! {

/// What the packaging asks of the script runtime. Nothing is promised of
/// what an implementation returns: the packaging is verified for every
/// answer.
pub trait ScriptRuntime {
    /// Parses JSON text, given in UTF-16 code units. On `Err` the runtime
    /// holds a pending exception.
    fn parse_structured(&mut self, text: &Vec<u16>) -> Result<JsValue, ()>;

    /// Hands out the pending exception and clears it. Called only directly
    /// after `parse_structured` has failed.
    fn get_and_clear_pending_failure(&mut self) -> JsValue;

    /// Allocates an array buffer as long as `bytes` and copies them into it.
    /// `Err` leaves no exception to retrieve.
    fn allocate_binary_buffer(&mut self, bytes: &Vec<u8>) -> Result<JsObject, ()>;
}

/// One call into the runtime, with what it was given and what it answered:
/// `None` stands for a failure.
pub enum RuntimeCall {
    Parse(Seq<u16>, Option<JsValue>),
    TakeFailure(JsValue),
    Allocate(Seq<u8>, Option<JsObject>),
}

/// What the runtime answered, with `None` for its failure.
pub open spec fn answer<T>(r: Result<T, ()>) -> Option<T> {
    match r {
        Ok(value) => Some(value),
        Err(_) => None,
    }
}

/// A runtime together with the record of what was asked of it: the calls in
/// their order, and whether a failed parse has left an exception that was
/// not retrieved yet. Every call into the runtime goes through here, so
/// that the order of the calls is part of each contract.
pub struct Context<R> {
    runtime: R,
    pending: Ghost<bool>,
    calls: Ghost<Seq<RuntimeCall>>,
}

impl<R: ScriptRuntime> Context<R> {
    /// Whether an exception of a failed parse waits to be retrieved.
    pub closed spec fn failure_pending(&self) -> bool {
        self.pending@
    }

    /// The calls made so far, oldest first.
    pub closed spec fn calls(&self) -> Seq<RuntimeCall> {
        self.calls@
    }

    /// Takes a runtime in which no exception is pending.
    pub fn new(runtime: R) -> (cx: Context<R>)
        ensures
            cx.inner() == runtime,
            !cx.failure_pending(),
            cx.calls() == Seq::<RuntimeCall>::empty(),
    {
        Context { runtime, pending: Ghost(false), calls: Ghost(Seq::empty()) }
    }

    /// The runtime itself, as the calls so far have left it.
    pub fn runtime(&self) -> (runtime: &R)
        ensures
            *runtime == self.inner(),
    {
        &self.runtime
    }

    /// The runtime that is held.
    pub closed spec fn inner(&self) -> R {
        self.runtime
    }

    /// Asks the runtime to parse a text. A failure leaves an exception
    /// pending, which the next call has to retrieve.
    pub fn parse_structured(&mut self, text: &Vec<u16>) -> (parsed: Result<JsValue, ()>)
        requires
            !old(self).failure_pending(),
        ensures
            final(self).failure_pending() == parsed.is_err(),
            final(self).calls() == old(self).calls().push(RuntimeCall::Parse(text@, answer(parsed))),
    {
        let parsed = self.runtime.parse_structured(text);
        self.pending = Ghost(parsed.is_err());
        self.calls = Ghost(self.calls@.push(RuntimeCall::Parse(text@, answer(parsed))));
        parsed
    }

    /// Retrieves the exception of the parse that has just failed, and
    /// clears it in the runtime.
    pub fn get_and_clear_pending_failure(&mut self) -> (exception: JsValue)
        requires
            old(self).failure_pending(),
        ensures
            !final(self).failure_pending(),
            final(self).calls() == old(self).calls().push(RuntimeCall::TakeFailure(exception)),
    {
        let exception = self.runtime.get_and_clear_pending_failure();
        self.pending = Ghost(false);
        self.calls = Ghost(self.calls@.push(RuntimeCall::TakeFailure(exception)));
        exception
    }

    /// Asks the runtime for an array buffer that holds `bytes`.
    pub fn allocate_binary_buffer(&mut self, bytes: &Vec<u8>) -> (allocated: Result<JsObject, ()>)
        requires
            !old(self).failure_pending(),
        ensures
            !final(self).failure_pending(),
            final(self).calls() == old(self).calls().push(
                RuntimeCall::Allocate(bytes@, answer(allocated)),
            ),
    {
        let allocated = self.runtime.allocate_binary_buffer(bytes);
        self.calls = Ghost(self.calls@.push(RuntimeCall::Allocate(bytes@, answer(allocated))));
        allocated
    }
}

} // verus!

//! The promise that a consumption settles: pending, then resolved or
//! rejected, once.

use vstd::prelude::*;
use crate::types::{DataModel, Error, ErrorModel, FetchedData, JsValue};

verus! {

/// Where a promise stands.
#[derive(Debug, PartialEq, Eq)]
pub enum PromiseState {
    /// Not settled yet.
    Pending,
    /// Resolved with the packaged body.
    Resolved(FetchedData),
    /// Rejected with an error of this library.
    RejectedError(Error),
    /// Rejected with a value that the script runtime raised.
    RejectedNative(JsValue),
}

/// What a promise's state is, over the models of what it carries.
pub enum PromiseModel {
    Pending,
    Resolved(DataModel),
    RejectedError(ErrorModel),
    RejectedNative(JsValue),
}

impl View for PromiseState {
    type V = PromiseModel;

    open spec fn view(&self) -> PromiseModel {
        match self {
            PromiseState::Pending => PromiseModel::Pending,
            PromiseState::Resolved(d) => PromiseModel::Resolved(d@),
            PromiseState::RejectedError(e) => PromiseModel::RejectedError(e@),
            PromiseState::RejectedNative(v) => PromiseModel::RejectedNative(*v),
        }
    }
}

/// A cell that is assigned at most once. Whoever looks at it after it has
/// settled sees the settled state.
#[derive(Debug, PartialEq, Eq)]
pub struct Promise {
    state: PromiseState,
}

impl View for Promise {
    type V = PromiseModel;

    closed spec fn view(&self) -> PromiseModel {
        self.state@
    }
}

impl Promise {
    /// A promise that nothing has settled.
    pub fn new() -> (p: Promise)
        ensures
            p@ == PromiseModel::Pending,
    {
        Promise { state: PromiseState::Pending }
    }

    /// The state as it stands now.
    pub fn state(&self) -> (s: &PromiseState)
        ensures
            s@ == self@,
    {
        &self.state
    }

    pub fn is_pending(&self) -> (b: bool)
        ensures
            b == (self@ == PromiseModel::Pending),
    {
        match self.state {
            PromiseState::Pending => true,
            _ => false,
        }
    }

    /// Resolves a pending promise with a value.
    pub fn resolve_native(&mut self, value: FetchedData)
        requires
            old(self)@ == PromiseModel::Pending,
        ensures
            final(self)@ == PromiseModel::Resolved(value@),
    {
        self.state = PromiseState::Resolved(value);
    }

    /// Rejects a pending promise with an error of this library.
    pub fn reject_error(&mut self, error: Error)
        requires
            old(self)@ == PromiseModel::Pending,
        ensures
            final(self)@ == PromiseModel::RejectedError(error@),
    {
        self.state = PromiseState::RejectedError(error);
    }

    /// Rejects a pending promise with a value raised by the script runtime.
    pub fn reject_native(&mut self, exception: JsValue)
        requires
            old(self)@ == PromiseModel::Pending,
        ensures
            final(self)@ == PromiseModel::RejectedNative(exception),
    {
        self.state = PromiseState::RejectedNative(exception);
    }
}

} // verus!

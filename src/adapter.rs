use vstd::prelude::*;
use crate::reply::{Error, Reply};
use crate::responder::{result_view, Responder};

verus! {

/// An endpoint: a handler whose return value is converted into a response.
pub struct High<F>(F);

impl<F> High<F> {
    /// The wrapped handler.
    pub closed spec fn spec_handler(&self) -> F {
        self.0
    }

    pub fn handler(&self) -> (r: &F)
        ensures
            *r == self.spec_handler(),
    {
        &self.0
    }

    /// The step that follows the handler's completion: its value is converted, and the
    /// response or the error is handed on unchanged.
    pub fn respond<R: Responder>(&self, value: R) -> (r: Result<Reply, Error>)
        ensures
            result_view(r) == value.outcome(),
    {
        value.into_response()
    }
}

/// Wraps a handler, so that it may return any `Responder`.
pub fn wrap<F>(f: F) -> (r: High<F>)
    ensures
        r.spec_handler() == f,
{
    High(f)
}

} // verus!

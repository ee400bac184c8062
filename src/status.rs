//! The status of one request: pending until it is written, once, with its
//! outcome.

use vstd::prelude::*;

verus! {

/// Where a request stands: still pending, or finished with a result or an
/// error. A status leaves `Pending` at most once.
#[derive(Debug, Clone, PartialEq)]
pub enum RequestStatus<T, E> {
    Pending,
    Complete(T),
    Failed(E),
}

impl<T, E> RequestStatus<T, E> {
    /// A status that is still pending.
    pub fn new() -> (r: RequestStatus<T, E>)
        ensures
            r is Pending,
    {
        RequestStatus::Pending
    }

    /// Whether the request is still pending.
    pub fn is_pending(&self) -> (r: bool)
        ensures
            r == (self is Pending),
    {
        match self {
            RequestStatus::Pending => true,
            _ => false,
        }
    }

    /// Writes the result where the request is still pending and returns
    /// `true`; a status that is already written keeps its outcome.
    pub fn complete(&mut self, value: T) -> (r: bool)
        ensures
            r == (*old(self) is Pending),
            r ==> *final(self) == RequestStatus::<T, E>::Complete(value),
            !r ==> *final(self) == *old(self),
    {
        if self.is_pending() {
            *self = RequestStatus::Complete(value);
            true
        } else {
            false
        }
    }

    /// Writes the error where the request is still pending and returns
    /// `true`; a status that is already written keeps its outcome.
    pub fn fail(&mut self, error: E) -> (r: bool)
        ensures
            r == (*old(self) is Pending),
            r ==> *final(self) == RequestStatus::<T, E>::Failed(error),
            !r ==> *final(self) == *old(self),
    {
        if self.is_pending() {
            *self = RequestStatus::Failed(error);
            true
        } else {
            false
        }
    }
}

} // verus!

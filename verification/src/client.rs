//! The caller's side of one call: the awaitable and its cancellation guard.
//!
//! A call returns a [`RequestFuture`]. The host's event loop polls it by
//! handing in whatever the dispatcher delivered for the call's id; the
//! future races that completion against the dispatcher's own liveness, so
//! a closed transport resolves the call with a failure instead of hanging.
//! The first ready poll disarms the cancellation guard. Abandoning the
//! future before completion fires the guard exactly once: it yields the id
//! whose entry must be removed from the correlation map, and the remote
//! endpoint is then notified.

use vstd::prelude::*;

use crate::dispatch::{CallResult, CancelOutcome, Dispatcher, dropped};

verus! {

/// Ties a client stub to its generated request and response variant sets.
pub trait Client {
    type Request;

    type Response;
}

/// Why a call failed rather than completed.
#[derive(Clone, Copy, PartialEq, Eq, Structural, Debug)]
pub enum CallFailure {
    /// The dispatcher terminated (the transport closed or the session was
    /// torn down) while the call was outstanding.
    TransportClosed,
    /// The response payload did not decode into the expected variant: a
    /// protocol desync, never silently dropped.
    Decode,
}

/// The cancellation guard of one call: while armed, abandoning the call
/// fires it, which removes the call's id from the correlation map and
/// notifies the remote side.
pub struct RequestAbort {
    /// Armed until the call completes or the guard fires.
    pub active: bool,
    /// The correlation id of the guarded call.
    pub id: u64,
}

impl RequestAbort {
    /// Fires the guard: yields the id to cancel when the guard was still
    /// armed, and disarms it, so a guard fires at most once.
    pub fn fire(&mut self) -> (r: Option<u64>)
        ensures
            !final(self).active,
            final(self).id == old(self).id,
            r == if old(self).active {
                Some(old(self).id)
            } else {
                None::<u64>
            },
    {
        let was_active = self.active;
        self.active = false;
        if was_active {
            Some(self.id)
        } else {
            None
        }
    }
}

/// The per-call awaitable: the pending side of one call, holding its armed
/// cancellation guard.
pub struct RequestFuture {
    pub abort: RequestAbort,
}

impl RequestFuture {
    /// The future of a freshly submitted call: pending, its guard armed.
    pub fn new(id: u64) -> (r: RequestFuture)
        ensures
            r.abort.active,
            r.abort.id == id,
    {
        RequestFuture { abort: RequestAbort { active: true, id } }
    }

    /// One poll: `delivered` is what the dispatcher's correlation step
    /// handed over for this call, if anything. The first ready result
    /// disarms the guard; a pending poll changes nothing.
    pub fn poll(&mut self, delivered: Option<CallResult>) -> (r: Option<CallResult>)
        ensures
            r == delivered,
            final(self).abort.id == old(self).abort.id,
            delivered is Some ==> !final(self).abort.active,
            delivered is None ==> *final(self) == *old(self),
    {
        match delivered {
            Some(result) => {
                self.abort.active = false;
                Some(result)
            },
            None => None,
        }
    }

    /// One poll racing the call's completion against the dispatcher's
    /// liveness: a delivered result completes the call; a closed
    /// dispatcher resolves it with a transport failure instead of letting
    /// it hang; otherwise the call stays pending. Either ready outcome
    /// disarms the guard.
    pub fn poll_call(&mut self, dispatcher_closed: bool, delivered: Option<CallResult>) -> (r:
        Option<Result<CallResult, CallFailure>>)
        ensures
            final(self).abort.id == old(self).abort.id,
            match delivered {
                Some(result) => r == Some(Result::<CallResult, CallFailure>::Ok(result))
                    && !final(self).abort.active,
                None => if dispatcher_closed {
                    r == Some(Result::<CallResult, CallFailure>::Err(CallFailure::TransportClosed))
                        && !final(self).abort.active
                } else {
                    r is None && *final(self) == *old(self)
                },
            },
    {
        match delivered {
            Some(result) => {
                self.abort.active = false;
                Some(Ok(result))
            },
            None => {
                if dispatcher_closed {
                    self.abort.active = false;
                    Some(Err(CallFailure::TransportClosed))
                } else {
                    None
                }
            },
        }
    }

    /// Abandons the call before completion: the explicit form of dropping
    /// the future. Yields the id to cancel exactly when the guard was
    /// still armed; after completion the guard is disarmed and abandoning
    /// is a no-op.
    pub fn abandon(self) -> (r: Option<u64>)
        ensures
            r == if self.abort.active {
                Some(self.abort.id)
            } else {
                None::<u64>
            },
    {
        if self.abort.active {
            Some(self.abort.id)
        } else {
            None
        }
    }
}

/// Abandons a call and propagates the cancellation to the dispatcher: if
/// the guard was still armed, the call's entry leaves the correlation map
/// (and the returned outcome says whether the remote endpoint must be
/// notified); a completed call's guard is disarmed and nothing happens.
pub fn cancel_call(dispatcher: &mut Dispatcher, fut: RequestFuture) -> (r: Option<CancelOutcome>)
    requires
        old(dispatcher).wf(),
    ensures
        final(dispatcher).wf(),
        final(dispatcher).next_id == old(dispatcher).next_id,
        final(dispatcher).closed == old(dispatcher).closed,
        fut.abort.active ==> final(dispatcher).pending@ == dropped(
            old(dispatcher).pending@,
            fut.abort.id,
        ) && r is Some,
        !fut.abort.active ==> final(dispatcher).pending@ == old(dispatcher).pending@ && r is None,
{
    match fut.abandon() {
        Some(id) => Some(dispatcher.cancel(id)),
        None => None,
    }
}

} // verus!

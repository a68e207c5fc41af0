//! The dispatcher: the correlation and cancellation layer of one endpoint.
//!
//! A dispatcher owns the correlation map from pending-call id to completion
//! handle and is its only writer. The host's event loop performs the actual
//! sends and receives on the transport and drives every frame through the
//! transition functions here: [`Dispatcher::submit`] registers a call and
//! yields the frame to send, [`Dispatcher::handle_response`] correlates an
//! inbound response frame, removes its id and says which handle to
//! complete, [`Dispatcher::cancel`] removes an abandoned call, and
//! [`Dispatcher::teardown`] fails everything outstanding when the transport
//! closes or the session ends.
//!
//! Ids are allocated monotonically, so a pending id is never reused while
//! it is live; an inbound frame whose id is unknown is discarded as a
//! defined no-op, which is exactly what a late response to a cancelled call
//! must do.

use std::collections::HashMap;

use vstd::prelude::*;

use crate::wire::{Frame, OpaqueValue};

verus! {

broadcast use vstd::std_specs::hash::group_hash_axioms;

/// What a completed call receives: the response frame's payload and its
/// out-of-band values.
pub struct CallResult {
    pub payload: Vec<u8>,
    pub out_of_band: Vec<OpaqueValue>,
}

pub struct CallResultV {
    pub payload: Seq<u8>,
    pub out_of_band: Seq<OpaqueValue>,
}

impl View for CallResult {
    type V = CallResultV;

    open spec fn view(&self) -> CallResultV {
        CallResultV { payload: self.payload@, out_of_band: self.out_of_band@ }
    }
}

/// What processing one inbound response frame did.
pub enum Delivery {
    /// The frame matched a pending call: its entry was removed and the
    /// handle must now be completed with the result — the handle's one
    /// completion.
    Completed { handle: u64, result: CallResult },
    /// No pending call carries the frame's id (it was cancelled, already
    /// completed, or never existed): the frame is dropped, a defined no-op.
    Discarded,
}

/// What cancelling a call did.
pub enum CancelOutcome {
    /// The entry was removed; the remote endpoint must be notified so it
    /// can abandon work tied to this id.
    Removed { handle: u64 },
    /// The call was no longer pending: cancelling again, or after
    /// completion, has no effect.
    NotPresent,
}

/// The per-endpoint correlation and cancellation state.
pub struct Dispatcher {
    /// The correlation map: pending-call id to completion handle. At most
    /// one live entry per id; an entry is removed before its handle is
    /// completed.
    pub pending: HashMap<u64, u64>,
    /// The next correlation id: ids are allocated monotonically.
    pub next_id: u64,
    /// The outbound submission queue: frames leave for the transport in
    /// submission order.
    pub outbound: Vec<Frame>,
    /// Set once the transport is gone or the session was torn down; no
    /// call can complete from then on.
    pub closed: bool,
}

/// The correlation map after the entry of `id` is dropped: removal when
/// the id is pending, a no-op when it is not. Both completion and
/// cancellation drop the entry; every other entry is untouched.
pub open spec fn dropped(pending: Map<u64, u64>, id: u64) -> Map<u64, u64> {
    if pending.dom().contains(id) {
        pending.remove(id)
    } else {
        pending
    }
}

/// The correlation map after teardown: nothing is pending any more.
pub open spec fn teardown_state(pending: Map<u64, u64>) -> Map<u64, u64> {
    Map::empty()
}

/// How many outstanding calls teardown fails.
pub open spec fn teardown_failures(pending: Map<u64, u64>) -> nat {
    pending.len()
}

impl Dispatcher {
    /// Every pending id was allocated before the next one: ids are never
    /// handed out twice.
    pub open spec fn wf(&self) -> bool {
        forall|id: u64| #[trigger] self.pending@.dom().contains(id) ==> id < self.next_id
    }

    /// A fresh endpoint: nothing pending, nothing closed.
    pub fn new() -> (d: Dispatcher)
        ensures
            d.wf(),
            d.pending@ == Map::<u64, u64>::empty(),
            d.next_id == 0,
            d.outbound@.len() == 0,
            !d.closed,
    {
        Dispatcher { pending: HashMap::new(), next_id: 0, outbound: Vec::new(), closed: false }
    }

    /// Registers one outbound call: allocates a fresh id, inserts the
    /// completion handle under it, and enqueues the frame behind every
    /// earlier submission — one non-suspending step, so no call can
    /// observe a half-updated map. On a closed endpoint nothing is
    /// registered and nothing is sent.
    pub fn submit(
        &mut self,
        payload: Vec<u8>,
        out_of_band: Vec<OpaqueValue>,
        transfer: Vec<bool>,
        handle: u64,
    ) -> (r: Option<u64>)
        requires
            old(self).wf(),
            old(self).next_id < u64::MAX,
            transfer@.len() == out_of_band@.len(),
        ensures
            final(self).wf(),
            old(self).closed ==> r is None && *final(self) == *old(self),
            !old(self).closed ==> match r {
                Some(id) => {
                    &&& id == old(self).next_id
                    &&& !old(self).pending@.dom().contains(id)
                    &&& final(self).pending@ == old(self).pending@.insert(id, handle)
                    &&& final(self).next_id == old(self).next_id + 1
                    &&& !final(self).closed
                    &&& final(self).outbound@.len() == old(self).outbound@.len() + 1
                    &&& forall|k: int|
                        0 <= k < old(self).outbound@.len() ==> final(self).outbound@[k] == old(
                            self,
                        ).outbound@[k]
                    &&& final(self).outbound@.last().id == id
                    &&& final(self).outbound@.last()@.payload == payload@
                    &&& final(self).outbound@.last()@.out_of_band == out_of_band@
                    &&& final(self).outbound@.last()@.transfer == transfer@
                    &&& final(self).outbound@.last().wf()
                },
                None => false,
            },
    {
        if self.closed {
            return None;
        }
        let id = self.next_id;
        proof {
            assert(!self.pending@.dom().contains(id));
        }
        self.next_id = id + 1;
        self.pending.insert(id, handle);
        self.outbound.push(Frame { id, payload, out_of_band, transfer });
        Some(id)
    }

    /// Hands the host the next frame to write to the transport: the
    /// oldest submission leaves first, so outbound frames are delivered
    /// in submission order.
    pub fn next_outbound(&mut self) -> (r: Option<Frame>)
        requires
            old(self).wf(),
        ensures
            final(self).wf(),
            final(self).pending@ == old(self).pending@,
            final(self).next_id == old(self).next_id,
            final(self).closed == old(self).closed,
            match r {
                Some(f) => {
                    &&& old(self).outbound@.len() > 0
                    &&& f == old(self).outbound@[0]
                    &&& final(self).outbound@ == old(self).outbound@.skip(1)
                },
                None => old(self).outbound@.len() == 0 && *final(self) == *old(self),
            },
    {
        if self.outbound.len() == 0 {
            return None;
        }
        let f = self.outbound.remove(0);
        proof {
            assert(self.outbound@ =~= old(self).outbound@.skip(1));
        }
        Some(f)
    }

    /// Correlates one inbound response frame: if its id is pending, the
    /// entry is removed and the matching handle is to be completed with
    /// the frame's payload and out-of-band values; otherwise the frame is
    /// discarded and nothing changes. Every other pending call keeps its
    /// entry either way.
    pub fn handle_response(&mut self, frame: Frame) -> (r: Delivery)
        requires
            old(self).wf(),
        ensures
            final(self).wf(),
            final(self).next_id == old(self).next_id,
            final(self).closed == old(self).closed,
            final(self).outbound@ == old(self).outbound@,
            final(self).pending@ == dropped(old(self).pending@, frame.id),
            match r {
                Delivery::Completed { handle, result } => {
                    &&& old(self).pending@.dom().contains(frame.id)
                    &&& handle == old(self).pending@[frame.id]
                    &&& result@.payload == frame.payload@
                    &&& result@.out_of_band == frame.out_of_band@
                },
                Delivery::Discarded => !old(self).pending@.dom().contains(frame.id),
            },
    {
        let r = match self.pending.remove(&frame.id) {
            Some(handle) => Delivery::Completed {
                handle,
                result: CallResult { payload: frame.payload, out_of_band: frame.out_of_band },
            },
            None => Delivery::Discarded,
        };
        proof {
            if !old(self).pending@.dom().contains(frame.id) {
                assert(old(self).pending@.remove(frame.id) =~= old(self).pending@);
            }
        }
        r
    }

    /// Cancels a call: fired by the call's cancellation guard when the
    /// caller abandons the future. Removes the entry if it is still
    /// pending — the caller must then notify the remote endpoint — and is
    /// idempotent: once the entry is gone, cancelling does nothing.
    pub fn cancel(&mut self, id: u64) -> (r: CancelOutcome)
        requires
            old(self).wf(),
        ensures
            final(self).wf(),
            final(self).next_id == old(self).next_id,
            final(self).closed == old(self).closed,
            final(self).outbound@ == old(self).outbound@,
            final(self).pending@ == dropped(old(self).pending@, id),
            match r {
                CancelOutcome::Removed { handle } => {
                    &&& old(self).pending@.dom().contains(id)
                    &&& handle == old(self).pending@[id]
                },
                CancelOutcome::NotPresent => !old(self).pending@.dom().contains(id),
            },
    {
        let r = match self.pending.remove(&id) {
            Some(handle) => CancelOutcome::Removed { handle },
            None => CancelOutcome::NotPresent,
        };
        proof {
            if !old(self).pending@.dom().contains(id) {
                assert(old(self).pending@.remove(id) =~= old(self).pending@);
            }
        }
        r
    }

    /// Tears the endpoint down: every outstanding call is failed rather
    /// than left hanging (the count of failed handles is returned), the
    /// map and the outbound queue are emptied — the transport is gone, so
    /// nothing queued can be delivered — and the endpoint is closed for
    /// good.
    pub fn teardown(&mut self) -> (r: usize)
        requires
            old(self).wf(),
        ensures
            final(self).wf(),
            final(self).next_id == old(self).next_id,
            final(self).closed,
            final(self).pending@ == teardown_state(old(self).pending@),
            final(self).outbound@.len() == 0,
            r == teardown_failures(old(self).pending@),
    {
        let n = self.pending.len();
        self.pending.clear();
        self.outbound.clear();
        self.closed = true;
        n
    }
}

/// Concurrent multiplexing: any number of calls may be in flight at once,
/// each correlated by its own id alone. Completing (or cancelling) the call
/// `j` leaves the entry of every other in-flight call `i` exactly as it
/// was, whatever the order responses arrive in.
pub proof fn lemma_independent_calls(pending: Map<u64, u64>, i: u64, j: u64)
    requires
        i != j,
        pending.dom().contains(i),
    ensures
        dropped(pending, j).dom().contains(i),
        dropped(pending, j)[i] == pending[i],
{
}

/// Cancellation: dropping a pending call removes its id from the
/// correlation map; a response that later arrives for that id is discarded
/// without changing anything, and every other pending call is unaffected.
pub proof fn lemma_cancelled_call_is_gone(pending: Map<u64, u64>, id: u64)
    ensures
        !dropped(pending, id).dom().contains(id),
        dropped(dropped(pending, id), id) == dropped(pending, id),
        forall|other: u64|
            other != id && #[trigger] pending.dom().contains(other) ==> dropped(
                pending,
                id,
            ).dom().contains(other) && dropped(pending, id)[other] == pending[other],
{
}

/// No double completion: correlating a response removes the id before the
/// handle is completed, so a duplicate frame with the same id finds no
/// entry and is discarded — the handle is resolved at most once.
pub proof fn lemma_at_most_one_completion(pending: Map<u64, u64>, id: u64)
    ensures
        !dropped(pending, id).dom().contains(id),
        dropped(dropped(pending, id), id) == dropped(pending, id),
{
}

/// Idempotent teardown: tearing down an endpoint that was already torn
/// down fails no further call and leaves the state exactly as it was.
pub proof fn lemma_idempotent_teardown(pending: Map<u64, u64>)
    ensures
        teardown_failures(teardown_state(pending)) == 0,
        teardown_state(teardown_state(pending)) == teardown_state(pending),
{
    assert(Map::<u64, u64>::empty().dom() =~= Set::<u64>::empty());
}

} // verus!

use vstd::prelude::*;
use crate::envelope::{ResponseEnvelope, Payload, payload_of, payload_fits_view, parse_response, decode_response, select_payload};
use crate::errors::CloseReason;
use crate::table::PendingTable;

verus! {

/// One connection's bookkeeping: the id counter and the pending table.
/// Generic in the completion handle `T`, which the session stores and
/// returns but never inspects.
pub struct Session<T> {
    /// The next id to hand out; ids are strictly increasing from 0 and
    /// never reused within the session.
    pub next_id: u64,
    pub table: PendingTable<T>,
}

/// Where an inbound envelope was routed.
pub enum Routed<T> {
    /// A reply matched a pending entry: here is the caller's handle and
    /// the payload owed to it — and to no one else.
    Deliver { id: u64, handle: T, payload: Payload },
    /// A reply bearing an id with no pending entry: a stray or duplicate,
    /// dropped without touching anything.
    Stray { id: u64 },
    /// An id-less envelope: for the broadcast observer, never for a caller.
    Broadcast { envelope: ResponseEnvelope },
}

/// An inbound wakeup of the pump, as the transport reports it.
pub enum InboundEvent {
    /// A text frame with its contents.
    Text(String),
    /// A binary frame, which this protocol forbids.
    Binary,
    /// The transport reported a read failure.
    Failed,
    /// The transport reached a clean end of stream.
    Ended,
}

/// What the pump must do after one inbound event.
pub enum PumpStep<T> {
    /// The frame was decoded and routed; keep pumping.
    Dispatch(Routed<T>),
    /// A fatal condition: stop the loop and drain every pending entry
    /// with this reason.
    Fatal(CloseReason),
}

impl<T> Session<T> {
    /// Ids are unique in the table and every registered id was allocated
    /// before the counter's current position.
    pub open spec fn wf(self) -> bool {
        &&& self.table.wf()
        &&& forall|id: u64| #[trigger] self.table@.contains_key(id) ==> id < self.next_id
    }

    /// The pending map: each outstanding id and its caller's handle.
    pub open spec fn pending(self) -> Map<u64, T> {
        self.table@
    }

    /// A fresh session: counter at 0, nothing pending.
    pub fn new() -> (s: Self)
        ensures
            s.wf(),
            s.pending() == Map::<u64, T>::empty(),
            s.next_id == 0,
    {
        Session { next_id: 0, table: PendingTable::new() }
    }

    /// Allocates the next id and registers the caller's completion handle
    /// under it. The id is fresh: no two calls ever observe the same one,
    /// so the new entry collides with nothing.
    pub fn begin_call(&mut self, handle: T) -> (id: u64)
        requires
            old(self).wf(),
            old(self).next_id < u64::MAX,
        ensures
            final(self).wf(),
            id == old(self).next_id,
            final(self).next_id == old(self).next_id + 1,
            !old(self).pending().contains_key(id),
            final(self).pending() == old(self).pending().insert(id, handle),
    {
        let id = self.next_id;
        proof {
            assert(!self.table@.contains_key(id));
        }
        self.next_id = self.next_id + 1;
        self.table.register(id, handle);
        id
    }

    /// Removes and returns the entry for `id` if one is pending; every
    /// other entry is left exactly as it was.
    pub fn take_pending(&mut self, id: u64) -> (r: Option<T>)
        requires
            old(self).wf(),
        ensures
            final(self).wf(),
            final(self).next_id == old(self).next_id,
            old(self).pending().contains_key(id) ==> r == Some(old(self).pending()[id]),
            !old(self).pending().contains_key(id) ==> r is None,
            final(self).pending() == old(self).pending().remove(id),
            forall|o: u64| o != id ==> #[trigger] final(self).pending().contains_key(o)
                == old(self).pending().contains_key(o),
            forall|o: u64| o != id && old(self).pending().contains_key(o)
                ==> #[trigger] final(self).pending()[o] == old(self).pending()[o],
    {
        self.table.resolve(id)
    }

    /// Routes one decoded envelope: a reply with a pending id yields that
    /// caller's handle and the payload owed to it and removes only that
    /// entry; a stray id changes nothing; an id-less envelope goes to the
    /// broadcast path and resolves no pending entry.
    pub fn route_inbound(&mut self, env: ResponseEnvelope) -> (r: Routed<T>)
        requires
            old(self).wf(),
        ensures
            final(self).wf(),
            final(self).next_id == old(self).next_id,
            match env.id {
                None => final(self).pending() == old(self).pending()
                    && r == (Routed::<T>::Broadcast { envelope: env }),
                Some(id) => {
                    if old(self).pending().contains_key(id) {
                        &&& final(self).pending() == old(self).pending().remove(id)
                        &&& r == (Routed::<T>::Deliver {
                            id,
                            handle: old(self).pending()[id],
                            payload: payload_of(env),
                        })
                    } else {
                        &&& final(self).pending() == old(self).pending()
                        &&& r == Routed::<T>::Stray { id }
                    }
                },
            },
    {
        match env.id {
            None => Routed::Broadcast { envelope: env },
            Some(id) => {
                match self.take_pending(id) {
                    Some(handle) => {
                        let payload = select_payload(env);
                        Routed::Deliver { id, handle, payload }
                    },
                    None => Routed::Stray { id },
                }
            },
        }
    }

    /// One turn of the pump's inbound side. A text frame is decoded and
    /// routed; an undecodable frame, a binary frame, a read failure and the
    /// end of the stream are each fatal with their own reason. Nothing
    /// pending is dropped here: a fatal step leaves the table for
    /// `drain_all`.
    pub fn on_event(&mut self, ev: InboundEvent) -> (r: PumpStep<T>)
        requires
            old(self).wf(),
        ensures
            final(self).wf(),
            final(self).next_id == old(self).next_id,
            match ev {
                InboundEvent::Text(t) => {
                    let p = parse_response(t@);
                    &&& p is None ==> r == PumpStep::<T>::Fatal(CloseReason::MalformedEnvelope)
                        && final(self).pending() == old(self).pending()
                    &&& (p is Some && (p->0).id is None) ==> final(self).pending()
                        == old(self).pending()
                        && (r matches PumpStep::Dispatch(Routed::Broadcast { envelope })
                            && envelope@ == p->0)
                    &&& (p is Some && (p->0).id is Some && old(self).pending().contains_key(
                        (p->0).id->0,
                    )) ==> final(self).pending() == old(self).pending().remove((p->0).id->0)
                        && (r matches PumpStep::Dispatch(Routed::Deliver { id, handle, payload })
                            && id == (p->0).id->0
                            && handle == old(self).pending()[(p->0).id->0]
                            && payload_fits_view(payload, p->0))
                    &&& (p is Some && (p->0).id is Some && !old(self).pending().contains_key(
                        (p->0).id->0,
                    )) ==> final(self).pending() == old(self).pending()
                        && r == PumpStep::Dispatch(Routed::<T>::Stray { id: (p->0).id->0 })
                },
                InboundEvent::Binary => r == PumpStep::<T>::Fatal(CloseReason::ProtocolViolation)
                    && final(self).pending() == old(self).pending(),
                InboundEvent::Failed => r == PumpStep::<T>::Fatal(CloseReason::TransportError)
                    && final(self).pending() == old(self).pending(),
                InboundEvent::Ended => r == PumpStep::<T>::Fatal(CloseReason::StreamEnded)
                    && final(self).pending() == old(self).pending(),
            },
    {
        match ev {
            InboundEvent::Text(t) => {
                match decode_response(t.as_str()) {
                    None => PumpStep::Fatal(CloseReason::MalformedEnvelope),
                    Some(env) => PumpStep::Dispatch(self.route_inbound(env)),
                }
            },
            InboundEvent::Binary => PumpStep::Fatal(CloseReason::ProtocolViolation),
            InboundEvent::Failed => PumpStep::Fatal(CloseReason::TransportError),
            InboundEvent::Ended => PumpStep::Fatal(CloseReason::StreamEnded),
        }
    }

    /// Empties the table and returns every pending handle, in registration
    /// order: once the pump stops, every still-waiting caller is released,
    /// none is left suspended. Calling this on an already-empty table
    /// returns an empty list and may be repeated safely.
    pub fn drain_all(&mut self) -> (r: Vec<T>)
        requires
            old(self).wf(),
        ensures
            final(self).wf(),
            final(self).next_id == old(self).next_id,
            final(self).pending() == Map::<u64, T>::empty(),
            r@.len() == old(self).table.entries@.len(),
            r@.len() == old(self).pending().dom().len(),
            forall|j: int| 0 <= j < r@.len() ==> r@[j] == old(self).table.entries@[j].1,
            forall|id: u64| #[trigger] old(self).pending().contains_key(id)
                ==> r@.contains(old(self).pending()[id]),
    {
        self.table.drain_all()
    }

    /// How many requests are outstanding.
    pub fn pending_count(&self) -> (n: usize)
        ensures
            n == self.table.entries@.len(),
    {
        self.table.len()
    }
}

} // verus!

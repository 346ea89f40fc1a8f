use vstd::prelude::*;
use crate::envelope::{RequestEnvelope, ResponseEnvelope, Payload, parse_response, encode_request};
use crate::errors::{CallError, CloseReason};
use crate::session::{Session, Routed, InboundEvent, PumpStep};

verus! {

/// tokio's one-shot sender: the single-use completion handle a pending
/// entry stores. Opaque here; fulfilling it is the one trusted call.
#[verifier::external_type_specification]
#[verifier::external_body]
#[verifier::reject_recursive_types(T)]
pub struct ExOneshotSender<T>(tokio::sync::oneshot::Sender<T>);

/// tokio's one-shot receiver: what a caller suspends on until its own
/// response — and no other — fulfills the paired sender.
#[verifier::external_type_specification]
#[verifier::external_body]
#[verifier::reject_recursive_types(T)]
pub struct ExOneshotReceiver<T>(tokio::sync::oneshot::Receiver<T>);

/// tokio's error for a one-shot whose sender was dropped unfulfilled;
/// declared only so the receiver's type is fully known here.
#[verifier::external_type_specification]
#[verifier::external_body]
pub struct ExOneshotRecvError(tokio::sync::oneshot::error::RecvError);

/// What a completion handle is fulfilled with, exactly once.
pub enum CallOutcome {
    /// The reply that arrived bearing this call's id.
    Reply(Payload),
    /// The session died before a reply arrived.
    Closed(CloseReason),
}

/// Relies on tokio::sync::oneshot::channel: returns a connected
/// sender/receiver pair; what is sent on the first arrives at the second.
#[verifier::external_body]
fn new_completion() -> (r: (
    tokio::sync::oneshot::Sender<CallOutcome>,
    tokio::sync::oneshot::Receiver<CallOutcome>,
))
{
    tokio::sync::oneshot::channel()
}

/// Relies on tokio::sync::oneshot::Sender::send: consumes the handle and
/// delivers the outcome to the paired receiver, waking the suspended
/// caller; whether it was accepted depends on whether that receiver still
/// exists, so nothing is claimed of the result.
#[verifier::external_body]
fn fulfill(handle: tokio::sync::oneshot::Sender<CallOutcome>, outcome: CallOutcome) -> (delivered: bool)
{
    handle.send(outcome).is_ok()
}

/// The caller-facing engine of one connection: a session whose completion
/// handles are one-shot senders. The transport pump feeds `handle_event`;
/// callers open calls here and await the paired receivers.
pub struct Engine {
    pub session: Session<tokio::sync::oneshot::Sender<CallOutcome>>,
}

/// What the pump loop must do after the engine consumed one inbound event.
pub enum EngineStep {
    /// Keep pumping; any matched caller has been fulfilled already.
    Continue,
    /// An id-less envelope: hand it to the broadcast observer, keep pumping.
    Notify(ResponseEnvelope),
    /// The session died: the table has been drained, every still-pending
    /// caller fulfilled as connection-closed, and the loop must exit.
    Terminated(CloseReason),
}

impl Engine {
    pub open spec fn wf(self) -> bool {
        self.session.wf()
    }

    /// The pending map: each outstanding id and its completion sender.
    pub open spec fn pending(self) -> Map<u64, tokio::sync::oneshot::Sender<CallOutcome>> {
        self.session.pending()
    }

    pub fn new() -> (e: Self)
        ensures
            e.wf(),
            e.pending() == Map::<u64, tokio::sync::oneshot::Sender<CallOutcome>>::empty(),
            e.session.next_id == 0,
    {
        Engine { session: Session::new() }
    }

    /// Opens a call: allocates a fresh id, registers a completion pair
    /// under it, and encodes the outbound frame. The caller enqueues the
    /// frame and awaits the receiver; no other entry is touched.
    pub fn open_call(&mut self, method: &str, params: Option<serde_json::Value>) -> (r: (
        u64,
        tokio::sync::oneshot::Receiver<CallOutcome>,
        String,
    ))
        requires
            old(self).wf(),
            old(self).session.next_id < u64::MAX,
        ensures
            final(self).wf(),
            r.0 == old(self).session.next_id,
            final(self).session.next_id == old(self).session.next_id + 1,
            !old(self).pending().contains_key(r.0),
            final(self).pending().contains_key(r.0),
            forall|o: u64| o != r.0 ==> #[trigger] final(self).pending().contains_key(o)
                == old(self).pending().contains_key(o),
            forall|o: u64| o != r.0 && old(self).pending().contains_key(o)
                ==> #[trigger] final(self).pending()[o] == old(self).pending()[o],
    {
        let completion = new_completion();
        let id = self.session.begin_call(completion.0);
        let envelope = RequestEnvelope::new(Some(id), method, params);
        let frame = encode_request(&envelope);
        (id, completion.1, frame)
    }

    /// Deregisters a call whose frame the outbound queue rejected, so the
    /// entry does not leak; its handle is dropped and every other entry is
    /// left as it was. Returns whether the entry was still pending.
    pub fn cancel_call(&mut self, id: u64) -> (found: bool)
        requires
            old(self).wf(),
        ensures
            final(self).wf(),
            final(self).session.next_id == old(self).session.next_id,
            found == old(self).pending().contains_key(id),
            final(self).pending() == old(self).pending().remove(id),
            forall|o: u64| o != id ==> #[trigger] final(self).pending().contains_key(o)
                == old(self).pending().contains_key(o),
            forall|o: u64| o != id && old(self).pending().contains_key(o)
                ==> #[trigger] final(self).pending()[o] == old(self).pending()[o],
    {
        match self.session.take_pending(id) {
            Some(_handle) => true,
            None => false,
        }
    }

    /// Terminates the session: drains every pending entry and fulfills
    /// each caller as connection-closed with this reason. Returns how many
    /// callers were released. Safe to repeat: a dead session has nothing
    /// pending and releases no one.
    pub fn finish(&mut self, reason: CloseReason) -> (n: usize)
        requires
            old(self).wf(),
        ensures
            final(self).wf(),
            final(self).session.next_id == old(self).session.next_id,
            final(self).pending() == Map::<u64, tokio::sync::oneshot::Sender<CallOutcome>>::empty(),
            n == old(self).session.table.entries@.len(),
            n == old(self).pending().dom().len(),
    {
        let mut handles = self.session.drain_all();
        let n = handles.len();
        while handles.len() > 0
            decreases handles@.len(),
        {
            match handles.pop() {
                Some(handle) => {
                    let _ = fulfill(handle, CallOutcome::Closed(reason));
                },
                None => {},
            }
        }
        n
    }

    /// Consumes one inbound event. A reply that matches a pending entry
    /// fulfills exactly that caller with the payload owed to it; a stray
    /// reply is dropped; an id-less envelope is handed back for the
    /// broadcast observer; a fatal event drains the table and releases
    /// every still-pending caller as connection-closed.
    pub fn handle_event(&mut self, ev: InboundEvent) -> (r: EngineStep)
        requires
            old(self).wf(),
        ensures
            final(self).wf(),
            final(self).session.next_id == old(self).session.next_id,
            (r matches EngineStep::Terminated(_)) ==> final(self).pending()
                == Map::<u64, tokio::sync::oneshot::Sender<CallOutcome>>::empty(),
            match ev {
                InboundEvent::Text(t) => {
                    let p = parse_response(t@);
                    &&& p is None ==> r == EngineStep::Terminated(CloseReason::MalformedEnvelope)
                    &&& p is Some ==> !(r matches EngineStep::Terminated(_))
                    &&& (p is Some && (p->0).id is None) ==> final(self).pending()
                        == old(self).pending()
                        && (r matches EngineStep::Notify(envelope) && envelope@ == p->0)
                    &&& (p is Some && (p->0).id is Some) ==> r == EngineStep::Continue
                        && final(self).pending() == old(self).pending().remove((p->0).id->0)
                        && (forall|o: u64| o != (p->0).id->0
                            && old(self).pending().contains_key(o)
                            ==> #[trigger] final(self).pending()[o] == old(self).pending()[o])
                },
                InboundEvent::Binary => r == EngineStep::Terminated(CloseReason::ProtocolViolation),
                InboundEvent::Failed => r == EngineStep::Terminated(CloseReason::TransportError),
                InboundEvent::Ended => r == EngineStep::Terminated(CloseReason::StreamEnded),
            },
    {
        let step = self.session.on_event(ev);
        match step {
            PumpStep::Dispatch(Routed::Deliver { id: _, handle, payload }) => {
                let _ = fulfill(handle, CallOutcome::Reply(payload));
                EngineStep::Continue
            },
            PumpStep::Dispatch(Routed::Stray { id }) => {
                proof {
                    assert(self.pending().remove(id) =~= self.pending());
                }
                EngineStep::Continue
            },
            PumpStep::Dispatch(Routed::Broadcast { envelope }) => EngineStep::Notify(envelope),
            PumpStep::Fatal(reason) => {
                self.finish(reason);
                EngineStep::Terminated(reason)
            },
        }
    }
}

/// Turns a fulfilled completion into the caller's result: a success payload
/// (null when the reply carried neither result nor error) comes back as-is;
/// an error payload fails only this call with the remote's error; a closed
/// session fails it as connection-closed.
pub fn interpret_outcome(outcome: CallOutcome) -> (r: Result<Option<serde_json::Value>, CallError>)
    ensures
        match outcome {
            CallOutcome::Reply(Payload::Result(v)) => r == Result::<Option<serde_json::Value>, CallError>::Ok(Some(v)),
            CallOutcome::Reply(Payload::Null) => r == Result::<Option<serde_json::Value>, CallError>::Ok(None),
            CallOutcome::Reply(Payload::Error(e)) => r == Result::<Option<serde_json::Value>, CallError>::Err(CallError::RemoteError(e)),
            CallOutcome::Closed(reason) => r == Result::<Option<serde_json::Value>, CallError>::Err(CallError::ConnectionClosed(reason)),
        },
{
    match outcome {
        CallOutcome::Reply(Payload::Result(v)) => Ok(Some(v)),
        CallOutcome::Reply(Payload::Null) => Ok(None),
        CallOutcome::Reply(Payload::Error(e)) => Err(CallError::RemoteError(e)),
        CallOutcome::Closed(reason) => Err(CallError::ConnectionClosed(reason)),
    }
}

} // verus!

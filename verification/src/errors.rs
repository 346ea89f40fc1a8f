use vstd::prelude::*;

verus! {

/// Why a session's pump loop stopped. Every still-pending caller is released
/// with this reason once the loop exits; the session is dead afterwards.
#[derive(Clone, Copy, Debug, PartialEq, Eq, Structural)]
pub enum CloseReason {
    /// An inbound text frame was not valid structured data: the peer speaks
    /// an incompatible protocol.
    MalformedEnvelope,
    /// The peer sent a frame kind the protocol forbids here (a binary frame).
    ProtocolViolation,
    /// The transport reported a read failure.
    TransportError,
    /// The transport reached a clean end of stream.
    StreamEnded,
    /// The outbound queue was closed, so no further frame can be written.
    QueueClosed,
}

/// What a single call can fail with. Per-call failures never touch other
/// in-flight requests; `ConnectionClosed` is what every still-pending call
/// receives when the session dies.
pub enum CallError {
    /// The remote peer answered this call with an error payload; it is
    /// carried here unchanged.
    RemoteError(serde_json::Value),
    /// The session died before the reply arrived.
    ConnectionClosed(CloseReason),
    /// The outbound queue rejected the frame at enqueue time.
    SendFailed,
    /// The reply's result did not match the shape the caller expected.
    DecodeMismatch,
}

} // verus!

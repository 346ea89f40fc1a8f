//! A client-side JSON-RPC 2.0 engine: many callers multiplex concurrent
//! request/response pairs over one full-duplex message transport. The core
//! here is the id allocator, the pending-request table, the envelope codec,
//! and the routing decisions of the transport pump; the asynchronous plumbing
//! around them (socket, tasks, queues) lives with the caller.

pub mod controlcenter;
pub mod engine;
pub mod envelope;
pub mod errors;
pub mod session;
pub mod table;

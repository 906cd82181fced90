//! A verified streaming engine for ordered, resumable feeds of finalized
//! block data.
//!
//! The engine turns a persisted chain of finalized blocks plus a live
//! ingestion feed into one gap-free, duplicate-free, ordered sequence of
//! data and invalidation messages, resumable from any valid cursor. On top
//! of that sequence sit a count-or-time bounded batching layer, an idle
//! heartbeat layer, and the session layer that validates client parameters
//! and adapts batches to wire responses. All I/O (transport, storage
//! backends, HTTP delivery) lives outside this crate; the host drives these
//! state machines with plain values and performs the reads, awaits and
//! sends that they request.

pub mod batch;
pub mod block;
pub mod chain;
pub mod heartbeat;
pub mod message;
pub mod sequence;
pub mod session;
pub mod webhook;
pub mod wire;

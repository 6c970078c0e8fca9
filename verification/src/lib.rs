//! Release-health session tracking.
//!
//! A session stands for one run of a monitored application. The library
//! turns a stream of captured error events into status deltas
//! ([`session::Session`]), and batches those deltas for delivery, either one
//! by one or folded into hourly outcome counters
//! ([`flusher::SessionFlusher`]). Everything that decides what a session
//! records and what a flush sends is verified; the clocks and identifier
//! generation that the decisions consume are declared in [`external`].

pub mod external;
pub mod flusher;
pub mod protocol;
pub mod session;

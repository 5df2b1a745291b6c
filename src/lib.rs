//! Input event source for terminal applications: a fixed-capacity byte buffer
//! over a blocking terminal handle, merged with a coalesced window-resize
//! notification into one ordered stream of events.
//!
//! The library holds the state and every decision; the caller performs the
//! blocking calls (the physical read, the readiness wait, draining the
//! notification channel) and hands their outcomes back as plain values.

pub mod buffer;
pub mod retry;
pub mod event;
pub mod mux;

//! Playback-position synchronisation for a shared media stream.
//!
//! Clients watching the same stream report their session identifier, local
//! playback time and a few latency samples; the server reconciles those
//! reports into one authoritative session state and wakes subscribers through
//! a coalescing signal.  All times are integer milliseconds.

pub mod arith;
mod clock;
pub mod event;
pub mod notifier;
pub mod processor;
pub mod state;

pub use event::Event;
pub use notifier::Notifier;
pub use processor::{accept_epoch, apply_event, mean_latency, process_event};
pub use state::{SessionState, Snapshot};

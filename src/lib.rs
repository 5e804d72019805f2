//! Recording of named, nested timing spans into a trace-event log.
//!
//! A [`TraceSlot`] holds at most one active [`Trace`]. Recording calls
//! (`start`, `end`, `start_guard`, `SpanGuard::finish`) append `Begin` and
//! `End` events to the active trace and do nothing when no trace is active.
//! A stopped trace projects its log onto the wire records of the Chrome
//! trace-event format.
pub mod event;
pub mod trace;
pub mod guard;
pub mod laws;

pub use event::{BeginEvent, EndEvent, Event, IdentStr, Phase, TracingEvent};
pub use guard::{in_span, start_guard, SpanGuard};
pub use trace::{end, get_mut_trace, start, start_trace, stop_trace, Trace, TraceSlot};



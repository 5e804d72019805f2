//! Events of a trace and their projection onto wire records.
use vstd::prelude::*;

verus! {

/// A span name: a label only, never a lookup key.
pub type IdentStr = &'static str;

/// The opening of a span, stamped with a clock reading.
#[derive(Clone, Copy, Debug)]
pub struct BeginEvent {
    pub name: IdentStr,
    pub time: u64,
}

/// The closing of a span, stamped with a clock reading.
#[derive(Clone, Copy, Debug)]
pub struct EndEvent {
    pub name: IdentStr,
    pub time: u64,
}

/// One entry of a trace log.
#[derive(Clone, Copy, Debug)]
pub enum Event {
    Begin(BeginEvent),
    End(EndEvent),
}

/// The phase discriminator of a wire record.
#[derive(Clone, Copy, Debug, PartialEq, Eq, Structural)]
pub enum Phase {
    Begin,
    End,
}

/// Process id written into every wire record.
pub const PROCESS_ID: u32 = 0;

/// Thread id written into every wire record.
pub const THREAD_ID: u32 = 0;

/// The flat record that one event becomes on the wire.
#[derive(Clone, Copy, Debug)]
pub struct TracingEvent {
    pub name: IdentStr,
    pub process_id: u32,
    pub thread_id: u32,
    pub timestamp: u64,
    pub phase: Phase,
}

impl Event {
    /// The span name carried by the event.
    pub open spec fn name_of(self) -> IdentStr {
        match self {
            Event::Begin(b) => b.name,
            Event::End(e) => e.name,
        }
    }

    /// The clock reading carried by the event.
    pub open spec fn time_of(self) -> u64 {
        match self {
            Event::Begin(b) => b.time,
            Event::End(e) => e.time,
        }
    }

    /// The phase that the event's variant stands for.
    pub open spec fn phase_of(self) -> Phase {
        match self {
            Event::Begin(_) => Phase::Begin,
            Event::End(_) => Phase::End,
        }
    }

    /// The wire record of this event: same name and time, fixed ids, and the
    /// phase of its variant.
    pub open spec fn wire(self) -> TracingEvent {
        TracingEvent {
            name: self.name_of(),
            process_id: PROCESS_ID,
            thread_id: THREAD_ID,
            timestamp: self.time_of(),
            phase: self.phase_of(),
        }
    }

    /// The event is the opening of a span called `name`.
    pub open spec fn opens(self, name: IdentStr) -> bool {
        self is Begin && self.name_of() == name
    }

    /// The event is the closing of a span called `name`.
    pub open spec fn closes(self, name: IdentStr) -> bool {
        self is End && self.name_of() == name
    }

    /// The span name carried by the event.
    pub fn name(&self) -> (r: IdentStr)
        ensures
            r == self.name_of(),
    {
        match self {
            Event::Begin(b) => b.name,
            Event::End(e) => e.name,
        }
    }

    /// The clock reading carried by the event.
    pub fn time(&self) -> (r: u64)
        ensures
            r == self.time_of(),
    {
        match self {
            Event::Begin(b) => b.time,
            Event::End(e) => e.time,
        }
    }

    /// Flattens the event into its wire record.
    pub fn to_wire(&self) -> (r: TracingEvent)
        ensures
            r == self.wire(),
    {
        match self {
            Event::Begin(b) => TracingEvent::from(*b),
            Event::End(e) => TracingEvent::from(*e),
        }
    }
}

impl Phase {
    /// The wire tag of the phase: `"B"` for a begin, `"E"` for an end.
    pub fn tag(&self) -> (r: &'static str)
        ensures
            *self == Phase::Begin ==> r@ == seq!['B'],
            *self == Phase::End ==> r@ == seq!['E'],
    {
        match self {
            Phase::Begin => {
                proof {
                    reveal_strlit("B");
                }
                "B"
            },
            Phase::End => {
                proof {
                    reveal_strlit("E");
                }
                "E"
            },
        }
    }
}

impl From<BeginEvent> for TracingEvent {
    fn from(e: BeginEvent) -> (r: TracingEvent) {
        TracingEvent {
            name: e.name,
            process_id: PROCESS_ID,
            thread_id: THREAD_ID,
            timestamp: e.time,
            phase: Phase::Begin,
        }
    }
}

impl vstd::std_specs::convert::FromSpecImpl<BeginEvent> for TracingEvent {
    open spec fn obeys_from_spec() -> bool {
        true
    }

    open spec fn from_spec(e: BeginEvent) -> TracingEvent {
        Event::Begin(e).wire()
    }
}

impl From<EndEvent> for TracingEvent {
    fn from(e: EndEvent) -> (r: TracingEvent) {
        TracingEvent {
            name: e.name,
            process_id: PROCESS_ID,
            thread_id: THREAD_ID,
            timestamp: e.time,
            phase: Phase::End,
        }
    }
}

impl vstd::std_specs::convert::FromSpecImpl<EndEvent> for TracingEvent {
    open spec fn obeys_from_spec() -> bool {
        true
    }

    open spec fn from_spec(e: EndEvent) -> TracingEvent {
        Event::End(e).wire()
    }
}

} // verus!

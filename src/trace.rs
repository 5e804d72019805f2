//! The trace, the slot that holds the active one, and the recording primitives.
use vstd::prelude::*;

use crate::event::{BeginEvent, EndEvent, Event, IdentStr, TracingEvent};

verus! {

/// A time source that may be read at any time.
struct Clock<C: Fn() -> u64> {
    read: C,
}

impl<C: Fn() -> u64> Clock<C> {
    #[verifier::type_invariant]
    spec fn ready(&self) -> bool {
        call_requires(self.read, ())
    }

    fn now(&self) -> (r: u64)
        ensures
            call_ensures(self.read, (), r),
    {
        proof {
            use_type_invariant(self);
        }
        (self.read)()
    }
}

/// An ordered, append-only log of events and the clock that stamps them.
pub struct Trace<C: Fn() -> u64> {
    events: Vec<Event>,
    clock: Clock<C>,
}

impl<C: Fn() -> u64> View for Trace<C> {
    type V = Seq<Event>;

    closed spec fn view(&self) -> Seq<Event> {
        self.events@
    }
}

impl<C: Fn() -> u64> Trace<C> {
    /// The clock that stamps this trace's events.
    pub closed spec fn clock_fn(&self) -> C {
        self.clock.read
    }

    /// `next` is `self` with `last` appended, keeping the clock, and `last`
    /// is stamped with a reading of that clock.
    pub open spec fn appended(&self, next: Trace<C>, last: Event) -> bool {
        &&& next.clock_fn() == self.clock_fn()
        &&& next@ == self@.push(last)
        &&& call_ensures(self.clock_fn(), (), last.time_of())
    }

    /// A trace with an empty log, stamped by `clock`.
    fn new(clock: C) -> (r: Trace<C>)
        requires
            call_requires(clock, ()),
        ensures
            r@ == Seq::<Event>::empty(),
            r.clock_fn() == clock,
    {
        Trace { events: Vec::new(), clock: Clock { read: clock } }
    }

    /// Reads the trace's clock.
    pub fn get_time(&self) -> (r: u64)
        ensures
            call_ensures(self.clock_fn(), (), r),
    {
        self.clock.now()
    }

    /// The recorded events, in the order they were recorded.
    pub fn events(&self) -> (r: &Vec<Event>)
        ensures
            r@ == self@,
    {
        &self.events
    }

    /// Appends an event to the log.
    fn push_event(&mut self, e: Event)
        ensures
            final(self)@ == old(self)@.push(e),
            final(self).clock_fn() == old(self).clock_fn(),
    {
        self.events.push(e);
    }

    /// The wire records of the log, one per event and in the same order.
    pub fn wire_events(&self) -> (r: Vec<TracingEvent>)
        ensures
            r@.len() == self@.len(),
            forall|i: int| 0 <= i < self@.len() ==> #[trigger] r@[i] == self@[i].wire(),
    {
        let mut r: Vec<TracingEvent> = Vec::new();
        let mut i: usize = 0;
        while i < self.events.len()
            invariant
                i <= self@.len(),
                r@.len() == i,
                forall|j: int| 0 <= j < i ==> #[trigger] r@[j] == self@[j].wire(),
            decreases self@.len() - i,
        {
            r.push(self.events[i].to_wire());
            i = i + 1;
        }
        r
    }
}

/// The one place that holds the active trace, if there is one.
pub struct TraceSlot<C: Fn() -> u64> {
    active: Option<Trace<C>>,
}

impl<C: Fn() -> u64> TraceSlot<C> {
    /// The active trace, if any.
    pub closed spec fn current(&self) -> Option<Trace<C>> {
        self.active
    }

    /// An empty slot: no trace is active.
    pub fn new() -> (r: TraceSlot<C>)
        ensures
            r.current() is None,
    {
        TraceSlot { active: None }
    }

    /// Whether a trace is active.
    pub fn is_active(&self) -> (r: bool)
        ensures
            r == self.current() is Some,
    {
        self.active.is_some()
    }
}

/// `after` is `before` with `last` recorded: unchanged when no trace is
/// active, else the active trace with `last` appended, stamped by its clock.
pub open spec fn records<C: Fn() -> u64>(
    before: Option<Trace<C>>,
    after: Option<Trace<C>>,
    last: Event,
) -> bool {
    match before {
        None => after is None,
        Some(t) => after is Some && t.appended(after.unwrap(), last),
    }
}

/// `after` is `before` with one event recorded, the opening of `name`.
pub open spec fn records_begin<C: Fn() -> u64>(
    before: Option<Trace<C>>,
    after: Option<Trace<C>>,
    name: IdentStr,
) -> bool {
    match before {
        None => after is None,
        Some(t) => after is Some && after.unwrap()@.len() == t@.len() + 1
            && after.unwrap()@.last().opens(name)
            && records(before, after, after.unwrap()@.last()),
    }
}

/// `after` is `before` with one event recorded, the closing of `name`.
pub open spec fn records_end<C: Fn() -> u64>(
    before: Option<Trace<C>>,
    after: Option<Trace<C>>,
    name: IdentStr,
) -> bool {
    match before {
        None => after is None,
        Some(t) => after is Some && after.unwrap()@.len() == t@.len() + 1
            && after.unwrap()@.last().closes(name)
            && records(before, after, after.unwrap()@.last()),
    }
}

/// `after` holds the same trace as `before`, possibly with more events
/// recorded: either neither holds a trace, or both do, with one clock, and
/// the log of `before` is a prefix of that of `after`.
pub open spec fn extends<C: Fn() -> u64>(before: Option<Trace<C>>, after: Option<Trace<C>>) -> bool {
    match before {
        None => after is None,
        Some(t) => {
            &&& after is Some
            &&& after.unwrap().clock_fn() == t.clock_fn()
            &&& t@.len() <= after.unwrap()@.len()
            &&& after.unwrap()@.subrange(0, t@.len() as int) == t@
        },
    }
}

/// Makes a new, empty trace stamped by `clock` the active one. The slot must
/// be empty: starting a second trace is a programming error.
pub fn start_trace<C: Fn() -> u64>(slot: &mut TraceSlot<C>, clock: C)
    requires
        old(slot).current() is None,
        call_requires(clock, ()),
    ensures
        final(slot).current() is Some,
        final(slot).current().unwrap()@ == Seq::<Event>::empty(),
        final(slot).current().unwrap().clock_fn() == clock,
{
    slot.active = Some(Trace::new(clock));
}

/// Removes the active trace and hands it to the caller; the slot is empty
/// afterwards. A trace must be active: stopping none is a programming error.
pub fn stop_trace<C: Fn() -> u64>(slot: &mut TraceSlot<C>) -> (r: Trace<C>)
    requires
        old(slot).current() is Some,
    ensures
        r == old(slot).current().unwrap(),
        final(slot).current() is None,
{
    slot.active.take().unwrap()
}

/// Mutable access to the active trace, or `None` when no trace is active.
pub fn get_mut_trace<C: Fn() -> u64>(slot: &mut TraceSlot<C>) -> (r: Option<&mut Trace<C>>)
    ensures
        r is None <==> old(slot).current() is None,
        r is None ==> final(slot).current() is None,
        r is Some ==> *r.unwrap() == old(slot).current().unwrap(),
        r is Some ==> final(slot).current() == Some(*final(r.unwrap())),
{
    slot.active.as_mut()
}

/// Records the opening of `name` in the active trace, stamped with a clock
/// reading. Does nothing when no trace is active.
pub fn start<C: Fn() -> u64>(slot: &mut TraceSlot<C>, name: IdentStr)
    ensures
        records_begin(old(slot).current(), final(slot).current(), name),
{
    if let Some(trace) = get_mut_trace(slot) {
        let time = trace.get_time();
        trace.push_event(Event::Begin(BeginEvent { name, time }));
    }
}

/// Records the closing of `name` in the active trace, stamped with a clock
/// reading. Does nothing when no trace is active.
pub fn end<C: Fn() -> u64>(slot: &mut TraceSlot<C>, name: IdentStr)
    ensures
        records_end(old(slot).current(), final(slot).current(), name),
{
    if let Some(trace) = get_mut_trace(slot) {
        let time = trace.get_time();
        trace.push_event(Event::End(EndEvent { name, time }));
    }
}

} // verus!

//! Spans tied to a guard value: opened when the guard is made, closed when
//! it is finished.
use vstd::prelude::*;

use crate::event::IdentStr;
use crate::laws::lemma_span_pairing;
use crate::trace::{end, extends, records_begin, records_end, start, TraceSlot};

verus! {

/// An open span. It records the span's closing when finished; a guard that
/// is made and dropped at once measures nothing.
#[must_use]
pub struct SpanGuard {
    name: IdentStr,
}

impl SpanGuard {
    /// The name of the open span.
    pub closed spec fn span_name(&self) -> IdentStr {
        self.name
    }

    /// The name of the open span.
    pub fn name(&self) -> (r: IdentStr)
        ensures
            r == self.span_name(),
    {
        self.name
    }

    /// Closes the span: records its end in the active trace, if any, with
    /// the same name as its beginning.
    pub fn finish<C: Fn() -> u64>(self, slot: &mut TraceSlot<C>)
        ensures
            records_end(old(slot).current(), final(slot).current(), self.span_name()),
    {
        end(slot, self.name);
    }
}

/// Opens a span called `name`: records its beginning in the active trace,
/// if any, and returns the guard that closes it.
pub fn start_guard<C: Fn() -> u64>(slot: &mut TraceSlot<C>, name: IdentStr) -> (g: SpanGuard)
    ensures
        g.span_name() == name,
        records_begin(old(slot).current(), final(slot).current(), name),
{
    start(slot, name);
    SpanGuard { name }
}

/// Runs `body` inside a span called `name`: the beginning is recorded
/// before it runs and the end after it returns, by whichever path it left.
/// `body` may record spans of its own but keeps the active trace.
pub fn in_span<C: Fn() -> u64, R, F: FnOnce(&mut TraceSlot<C>) -> R>(
    slot: &mut TraceSlot<C>,
    name: IdentStr,
    body: F,
) -> (r: R)
    requires
        forall|s: &mut TraceSlot<C>| call_requires(body, (s,)),
        forall|s: &mut TraceSlot<C>, v: R|
            call_ensures(body, (s,), v) ==> extends(
                s.current(),
                final(s).current(),
            ),
    ensures
        old(slot).current() is None ==> final(slot).current() is None,
        old(slot).current() is Some ==> {
            let n = old(slot).current().unwrap()@.len();
            let log = final(slot).current().unwrap()@;
            &&& final(slot).current() is Some
            &&& n + 2 <= log.len()
            &&& log[n as int].opens(name)
            &&& log.last().closes(name)
            &&& log.subrange(0, n as int) == old(slot).current().unwrap()@
        },
{
    let ghost before = slot.current();
    let g = start_guard(slot, name);
    let ghost opened = slot.current();
    let r = body(slot);
    let ghost closing = slot.current();
    g.finish(slot);
    proof {
        lemma_span_pairing(before, opened, closing, slot.current(), name);
    }
    r
}

} // verus!

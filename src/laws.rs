//! Properties of the recording model that hold across several calls.
use vstd::prelude::*;

use crate::event::{IdentStr, Phase};
use crate::trace::{extends, records_begin, records_end, Trace};

verus! {

/// Recording one event extends the log of the active trace and keeps its
/// clock, and leaves an empty slot empty.
pub proof fn lemma_record_extends<C: Fn() -> u64>(
    before: Option<Trace<C>>,
    after: Option<Trace<C>>,
    name: IdentStr,
)
    requires
        records_begin(before, after, name) || records_end(before, after, name),
    ensures
        extends(before, after),
{
    if let Some(t) = before {
        assert(after.unwrap()@.subrange(0, t@.len() as int) =~= t@);
    }
}

/// Extension is transitive.
pub proof fn lemma_extends_trans<C: Fn() -> u64>(
    a: Option<Trace<C>>,
    b: Option<Trace<C>>,
    c: Option<Trace<C>>,
)
    requires
        extends(a, b),
        extends(b, c),
    ensures
        extends(a, c),
{
    if let Some(t) = a {
        let lb = b.unwrap()@;
        let lc = c.unwrap()@;
        assert(lc.subrange(0, t@.len() as int) =~= lb.subrange(0, t@.len() as int));
    }
}

/// A span opened on an active trace and closed on the same trace, whatever
/// was recorded in between, leaves its beginning at the position where the
/// log ended before it was opened, and its end as the last event, after
/// the beginning; the events before it are untouched. With no active trace
/// nothing is recorded.
pub proof fn lemma_span_pairing<C: Fn() -> u64>(
    before: Option<Trace<C>>,
    opened: Option<Trace<C>>,
    closing: Option<Trace<C>>,
    closed: Option<Trace<C>>,
    name: IdentStr,
)
    requires
        records_begin(before, opened, name),
        extends(opened, closing),
        records_end(closing, closed, name),
    ensures
        before is None ==> closed is None,
        before is Some ==> {
            let n = before.unwrap()@.len();
            let log = closed.unwrap()@;
            &&& closed is Some
            &&& n + 2 <= log.len()
            &&& log[n as int].opens(name)
            &&& log.last().closes(name)
            &&& log.subrange(0, n as int) == before.unwrap()@
        },
{
    lemma_record_extends(before, opened, name);
    lemma_record_extends(closing, closed, name);
    lemma_extends_trans(before, opened, closing);
    lemma_extends_trans(before, closing, closed);
    if let Some(t) = before {
        let n = t@.len();
        let lo = opened.unwrap()@;
        let lc = closing.unwrap()@;
        let log = closed.unwrap()@;
        assert(lc.subrange(0, lo.len() as int)[n as int] == lo[n as int]);
        assert(log.subrange(0, lc.len() as int)[n as int] == lc[n as int]);
    }
}

/// Recording with no active trace records nothing: the slot stays empty.
pub proof fn lemma_silent_when_inactive<C: Fn() -> u64>(
    before: Option<Trace<C>>,
    after: Option<Trace<C>>,
    name: IdentStr,
)
    requires
        before is None,
        records_begin(before, after, name) || records_end(before, after, name),
    ensures
        after is None,
{
}

/// Recording the opening of `a`, the opening of `b`, the closing of `a`
/// and the closing of `b`, in that order, on an active trace appends four
/// events in exactly that order, and their wire records carry the names
/// `a`, `b`, `a`, `b` and the phases begin, begin, end, end.
pub proof fn lemma_append_order<C: Fn() -> u64>(
    s0: Option<Trace<C>>,
    s1: Option<Trace<C>>,
    s2: Option<Trace<C>>,
    s3: Option<Trace<C>>,
    s4: Option<Trace<C>>,
    a: IdentStr,
    b: IdentStr,
)
    requires
        s0 is Some,
        records_begin(s0, s1, a),
        records_begin(s1, s2, b),
        records_end(s2, s3, a),
        records_end(s3, s4, b),
    ensures
        ({
            let n = s0.unwrap()@.len() as int;
            let log = s4.unwrap()@;
            &&& s4 is Some
            &&& log.len() == n + 4
            &&& log.subrange(0, n) == s0.unwrap()@
            &&& log[n].opens(a) && log[n + 1].opens(b)
            &&& log[n + 2].closes(a) && log[n + 3].closes(b)
            &&& log[n].wire().name == a && log[n].wire().phase == Phase::Begin
            &&& log[n + 1].wire().name == b && log[n + 1].wire().phase == Phase::Begin
            &&& log[n + 2].wire().name == a && log[n + 2].wire().phase == Phase::End
            &&& log[n + 3].wire().name == b && log[n + 3].wire().phase == Phase::End
        }),
{
    let n = s0.unwrap()@.len() as int;
    let l1 = s1.unwrap()@;
    let l2 = s2.unwrap()@;
    let l3 = s3.unwrap()@;
    let log = s4.unwrap()@;
    assert(log[n] == l3[n] && l3[n] == l2[n] && l2[n] == l1[n]);
    assert(log[n + 1] == l3[n + 1] && l3[n + 1] == l2[n + 1]);
    assert(log[n + 2] == l3[n + 2]);
    assert(log.subrange(0, n) =~= s0.unwrap()@);
}

} // verus!

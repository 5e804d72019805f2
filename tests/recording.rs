use std::cell::Cell;

use serde_json::Value;
use span_trace::{
    end, get_mut_trace, in_span, start, start_guard, start_trace, stop_trace, BeginEvent, EndEvent,
    Event, Phase, Trace, TraceSlot, TracingEvent,
};

/// A clock that reads `first`, then advances by `step` after each reading.
fn stepping_clock(first: u64, step: u64) -> impl Fn() -> u64 {
    let next = Cell::new(first);
    move || {
        let t = next.get();
        next.set(t + step);
        t
    }
}

fn wire_json<C: Fn() -> u64>(trace: &Trace<C>) -> String {
    let mut records = Vec::new();
    for w in trace.wire_events() {
        let mut m = serde_json::Map::new();
        m.insert("name".to_string(), Value::from(w.name));
        m.insert("pid".to_string(), Value::from(w.process_id));
        m.insert("tid".to_string(), Value::from(w.thread_id));
        m.insert("ts".to_string(), Value::from(w.timestamp));
        m.insert("ph".to_string(), Value::from(w.phase.tag()));
        records.push(Value::Object(m));
    }
    let mut top = serde_json::Map::new();
    top.insert("traceEvents".to_string(), Value::Array(records));
    serde_json::to_string(&Value::Object(top)).unwrap()
}

fn shape(trace: &Trace<impl Fn() -> u64>) -> Vec<(Phase, &'static str, u64)> {
    trace.events().iter().map(|e| (e.to_wire().phase, e.name(), e.time())).collect()
}

#[test]
fn serialization_shape() {
    let mut slot = TraceSlot::new();
    start_trace(&mut slot, stepping_clock(1, 4));
    start(&mut slot, "work");
    end(&mut slot, "work");
    let trace = stop_trace(&mut slot);
    assert_eq!(
        wire_json(&trace),
        r#"{"traceEvents":[{"name":"work","pid":0,"tid":0,"ts":1,"ph":"B"},{"name":"work","pid":0,"tid":0,"ts":5,"ph":"E"}]}"#
    );
}

#[test]
fn zero_span_round_trip() {
    let mut slot = TraceSlot::new();
    start_trace(&mut slot, || 3);
    let trace = stop_trace(&mut slot);
    assert!(trace.events().is_empty());
    assert!(trace.wire_events().is_empty());
    assert_eq!(wire_json(&trace), r#"{"traceEvents":[]}"#);
}

#[test]
fn append_order_preserved() {
    let mut slot = TraceSlot::new();
    start_trace(&mut slot, stepping_clock(10, 1));
    start(&mut slot, "A");
    start(&mut slot, "B");
    end(&mut slot, "A");
    end(&mut slot, "B");
    let trace = stop_trace(&mut slot);
    assert_eq!(
        shape(&trace),
        vec![
            (Phase::Begin, "A", 10),
            (Phase::Begin, "B", 11),
            (Phase::End, "A", 12),
            (Phase::End, "B", 13),
        ]
    );
    assert_eq!(
        wire_json(&trace),
        r#"{"traceEvents":[{"name":"A","pid":0,"tid":0,"ts":10,"ph":"B"},{"name":"B","pid":0,"tid":0,"ts":11,"ph":"B"},{"name":"A","pid":0,"tid":0,"ts":12,"ph":"E"},{"name":"B","pid":0,"tid":0,"ts":13,"ph":"E"}]}"#
    );
}

#[test]
fn silent_when_inactive() {
    let mut slot: TraceSlot<fn() -> u64> = TraceSlot::new();
    assert!(!slot.is_active());
    start(&mut slot, "a");
    end(&mut slot, "a");
    let g = start_guard(&mut slot, "g");
    g.finish(&mut slot);
    assert!(!slot.is_active());
    assert!(get_mut_trace(&mut slot).is_none());
}

#[test]
fn recording_before_start_is_not_kept() {
    let mut slot = TraceSlot::new();
    start(&mut slot, "early");
    start_trace(&mut slot, || 2);
    end(&mut slot, "late");
    let trace = stop_trace(&mut slot);
    assert_eq!(shape(&trace), vec![(Phase::End, "late", 2)]);
}

#[test]
fn one_trace_at_a_time() {
    let mut slot: TraceSlot<Box<dyn Fn() -> u64>> = TraceSlot::new();
    assert!(!slot.is_active());
    start_trace(&mut slot, Box::new(|| 1));
    assert!(slot.is_active());
    start(&mut slot, "first");
    let first = stop_trace(&mut slot);
    assert!(!slot.is_active());
    assert_eq!(first.events().len(), 1);
    start_trace(&mut slot, Box::new(|| 1));
    assert!(slot.is_active());
    let second = stop_trace(&mut slot);
    assert!(second.events().is_empty());
}

#[test]
fn guard_pairs_begin_and_end() {
    let mut slot = TraceSlot::new();
    start_trace(&mut slot, stepping_clock(0, 1));
    start(&mut slot, "before");
    let g = start_guard(&mut slot, "X");
    assert_eq!(g.name(), "X");
    start(&mut slot, "inner");
    end(&mut slot, "inner");
    g.finish(&mut slot);
    let trace = stop_trace(&mut slot);
    assert_eq!(
        shape(&trace),
        vec![
            (Phase::Begin, "before", 0),
            (Phase::Begin, "X", 1),
            (Phase::Begin, "inner", 2),
            (Phase::End, "inner", 3),
            (Phase::End, "X", 4),
        ]
    );
}

fn early_exit_body<C: Fn() -> u64>(slot: &mut TraceSlot<C>, fail: bool) -> Result<u32, &'static str> {
    start(slot, "step");
    if fail {
        return Err("stopped early");
    }
    end(slot, "step");
    Ok(7)
}

#[test]
fn span_closes_on_early_exit() {
    let mut slot = TraceSlot::new();
    start_trace(&mut slot, stepping_clock(0, 1));
    let r = in_span(&mut slot, "outer", |s| early_exit_body(s, true));
    assert_eq!(r, Err("stopped early"));
    let trace = stop_trace(&mut slot);
    assert_eq!(
        shape(&trace),
        vec![(Phase::Begin, "outer", 0), (Phase::Begin, "step", 1), (Phase::End, "outer", 2)]
    );
}

#[test]
fn span_closes_on_normal_exit() {
    let mut slot = TraceSlot::new();
    start_trace(&mut slot, stepping_clock(5, 5));
    let r = in_span(&mut slot, "outer", |s| early_exit_body(s, false));
    assert_eq!(r, Ok(7));
    let trace = stop_trace(&mut slot);
    assert_eq!(
        shape(&trace),
        vec![
            (Phase::Begin, "outer", 5),
            (Phase::Begin, "step", 10),
            (Phase::End, "step", 15),
            (Phase::End, "outer", 20),
        ]
    );
}

#[test]
fn span_without_trace_records_nothing() {
    let mut slot: TraceSlot<fn() -> u64> = TraceSlot::new();
    let r = in_span(&mut slot, "outer", |s| early_exit_body(s, false));
    assert_eq!(r, Ok(7));
    assert!(!slot.is_active());
}

#[test]
fn get_time_reads_the_clock() {
    let mut slot = TraceSlot::new();
    start_trace(&mut slot, stepping_clock(100, 3));
    let trace = get_mut_trace(&mut slot).unwrap();
    assert_eq!(trace.get_time(), 100);
    assert_eq!(trace.get_time(), 103);
    assert!(trace.events().is_empty());
    start(&mut slot, "after");
    let trace = stop_trace(&mut slot);
    assert_eq!(shape(&trace), vec![(Phase::Begin, "after", 106)]);
}

#[test]
fn wire_record_fields() {
    let b = TracingEvent::from(BeginEvent { name: "n", time: 9 });
    assert_eq!((b.name, b.process_id, b.thread_id, b.timestamp, b.phase), ("n", 0, 0, 9, Phase::Begin));
    let e: TracingEvent = EndEvent { name: "m", time: 11 }.into();
    assert_eq!((e.name, e.process_id, e.thread_id, e.timestamp, e.phase), ("m", 0, 0, 11, Phase::End));
    let w = Event::End(EndEvent { name: "m", time: 11 }).to_wire();
    assert_eq!((w.name, w.timestamp, w.phase), ("m", 11, Phase::End));
    assert_eq!(Phase::Begin.tag(), "B");
    assert_eq!(Phase::End.tag(), "E");
}

use badger_server::dispatch::{DispatchOutcome, Dispatcher};
use badger_server::display::SharedDisplayState;
use badger_server::icd::{Payload, Reply, ReplyBody, Request, OP_SET_LED, OP_SET_TEXT};
use badger_server::refresh::{DisplayRefreshTask, RefreshPhase};

#[test]
fn scenario_set_text_hello_reaches_next_refresh_tick() {
    let mut d = Dispatcher::new(123);
    let mut s = SharedDisplayState::new();

    let out = d.dispatch(
        &mut s,
        Request { seq_no: 1, op_id: OP_SET_TEXT, payload: Payload::Text(String::from("Hello")) },
    );
    assert_eq!(out, DispatchOutcome::Replied(Reply { seq_no: 1, body: ReplyBody::TextSet }));
    assert!(s.is_dirty());

    let mut r = DisplayRefreshTask::new();
    assert_eq!(r.phase, RefreshPhase::Init);
    r.complete_setup(true);

    // The next tick picks the text up for the partial redraw ...
    let shown = r.poll(&s).expect("dirty flag was up");
    assert_eq!(shown.as_str(), "Hello");
    assert_eq!(r.phase, RefreshPhase::Redrawing);

    // ... and lowers the flag once the redraw is out.
    r.redraw_done(&mut s);
    assert!(!s.is_dirty());
    assert!(r.poll(&s).is_none());
}

#[test]
fn set_led_shows_status_line() {
    let mut d = Dispatcher::new(123);
    let mut s = SharedDisplayState::new();
    d.dispatch(
        &mut s,
        Request {
            seq_no: 1,
            op_id: OP_SET_LED,
            payload: Payload::Led(badger_server::icd::LedState::On),
        },
    );
    let shown = s.peek().expect("dirty flag was up");
    assert_eq!(shown.as_str(), "LED is On");

    d.dispatch(
        &mut s,
        Request {
            seq_no: 2,
            op_id: OP_SET_LED,
            payload: Payload::Led(badger_server::icd::LedState::Off),
        },
    );
    let shown = s.peek().expect("dirty flag was up");
    assert_eq!(shown.as_str(), "LED is Off");
}

#[test]
fn reader_between_write_and_flag_sees_no_partial_update() {
    // A writer's two steps with a refresh poll interleaved between them:
    // the poll observes nothing, because the flag is still down while the
    // text is being replaced.
    let mut s = SharedDisplayState::new();
    s.write_text("half-done update");
    assert!(s.peek().is_none());
    // Only once the flag store completes does a poll observe the text, and
    // then it observes it whole.
    s.mark_dirty();
    let shown = s.peek().expect("dirty flag was up");
    assert_eq!(shown.as_str(), "half-done update");
}

#[test]
fn reader_after_completed_write_sees_exactly_the_written_text() {
    let mut s = SharedDisplayState::new();
    s.publish_text("first");
    let shown = s.peek().expect("dirty flag was up");
    assert_eq!(shown.as_str(), "first");

    // A second writer overlapping before the reader consumed the first
    // update: the reader sees the second complete text, never a mixture.
    s.publish_text("second");
    let shown = s.peek().expect("dirty flag was up");
    assert_eq!(shown.as_str(), "second");
    let mut r = DisplayRefreshTask::new();
    r.complete_setup(true);
    let shown = r.poll(&s).expect("dirty flag was up");
    assert_eq!(shown.as_str(), "second");
    r.redraw_done(&mut s);
    assert!(!s.is_dirty());
}

#[test]
fn degraded_refresh_task_keeps_polling_after_failed_setup() {
    let mut s = SharedDisplayState::new();
    let mut r = DisplayRefreshTask::new();
    // The one-time panel setup failed: log-and-continue, degraded.
    r.complete_setup(false);
    assert!(!r.panel_ready);
    assert_eq!(r.phase, RefreshPhase::Idle);

    s.publish_text("still alive");
    let shown = r.poll(&s).expect("dirty flag was up");
    assert_eq!(shown.as_str(), "still alive");
    r.redraw_done(&mut s);
    assert_eq!(r.phase, RefreshPhase::Idle);
}

#[test]
fn text_at_exact_capacity_is_accepted_and_shown() {
    let mut d = Dispatcher::new(123);
    let mut s = SharedDisplayState::new();
    let exact = "y".repeat(120);
    let out = d.dispatch(
        &mut s,
        Request { seq_no: 1, op_id: OP_SET_TEXT, payload: Payload::Text(exact.clone()) },
    );
    assert_eq!(out, DispatchOutcome::Replied(Reply { seq_no: 1, body: ReplyBody::TextSet }));
    let shown = s.peek().expect("dirty flag was up");
    assert_eq!(shown.as_str(), exact);
}

#[test]
fn empty_text_is_accepted_and_clears_the_line() {
    let mut d = Dispatcher::new(123);
    let mut s = SharedDisplayState::new();
    d.dispatch(
        &mut s,
        Request { seq_no: 1, op_id: OP_SET_TEXT, payload: Payload::Text(String::from("old line")) },
    );
    let out = d.dispatch(
        &mut s,
        Request { seq_no: 2, op_id: OP_SET_TEXT, payload: Payload::Text(String::new()) },
    );
    assert_eq!(out, DispatchOutcome::Replied(Reply { seq_no: 2, body: ReplyBody::TextSet }));
    let shown = s.peek().expect("dirty flag was up");
    assert_eq!(shown.as_str(), "");
}

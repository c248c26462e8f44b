use badger_server::dispatch::{
    DispatchOutcome, Dispatcher, SLEEP_POOL_CAPACITY,
};
use badger_server::display::SharedDisplayState;
use badger_server::icd::{
    ClientError, LedState, Payload, Reply, ReplyBody, Request, SleepMillis, OP_GET_LED,
    OP_PICOBOOT_RESET, OP_SET_LED, OP_SET_TEXT, OP_SLEEP, OP_UNIQUE_ID,
};

fn reply(seq_no: u32, body: ReplyBody) -> DispatchOutcome {
    DispatchOutcome::Replied(Reply { seq_no, body })
}

#[test]
fn unique_id_reports_configured_identity() {
    let mut d = Dispatcher::new(123);
    let mut s = SharedDisplayState::new();
    let out = d.dispatch(
        &mut s,
        Request { seq_no: 1, op_id: OP_UNIQUE_ID, payload: Payload::Empty },
    );
    assert_eq!(out, reply(1, ReplyBody::UniqueId(123)));
}

#[test]
fn scenario_set_output_then_get_reports_on() {
    let mut d = Dispatcher::new(123);
    let mut s = SharedDisplayState::new();
    let out = d.dispatch(
        &mut s,
        Request { seq_no: 1, op_id: OP_SET_LED, payload: Payload::Led(LedState::On) },
    );
    assert_eq!(out, reply(1, ReplyBody::LedSet));
    let out = d.dispatch(
        &mut s,
        Request { seq_no: 2, op_id: OP_GET_LED, payload: Payload::Empty },
    );
    assert_eq!(out, reply(2, ReplyBody::Led(LedState::On)));
}

#[test]
fn unknown_operation_is_client_error_and_loop_continues() {
    let mut d = Dispatcher::new(123);
    let mut s = SharedDisplayState::new();
    let out = d.dispatch(
        &mut s,
        Request { seq_no: 9, op_id: 999, payload: Payload::Empty },
    );
    assert_eq!(out, reply(9, ReplyBody::Error(ClientError::NoSuchOperation)));
    // The dispatcher is unaffected: the next request is served normally.
    let out = d.dispatch(
        &mut s,
        Request { seq_no: 10, op_id: OP_GET_LED, payload: Payload::Empty },
    );
    assert_eq!(out, reply(10, ReplyBody::Led(LedState::Off)));
}

#[test]
fn wrong_payload_shape_is_malformed() {
    let mut d = Dispatcher::new(123);
    let mut s = SharedDisplayState::new();
    let out = d.dispatch(
        &mut s,
        Request { seq_no: 3, op_id: OP_GET_LED, payload: Payload::Sleep(SleepMillis { millis: 5 }) },
    );
    assert_eq!(out, reply(3, ReplyBody::Error(ClientError::MalformedPayload)));
}

#[test]
fn reboot_is_terminal_and_answers_nothing() {
    let mut d = Dispatcher::new(123);
    let mut s = SharedDisplayState::new();
    let out = d.dispatch(
        &mut s,
        Request { seq_no: 4, op_id: OP_PICOBOOT_RESET, payload: Payload::Empty },
    );
    assert_eq!(out, DispatchOutcome::Terminated);
}

#[test]
fn set_text_too_long_is_malformed_and_display_untouched() {
    let mut d = Dispatcher::new(123);
    let mut s = SharedDisplayState::new();
    let long = "x".repeat(121);
    let out = d.dispatch(
        &mut s,
        Request { seq_no: 5, op_id: OP_SET_TEXT, payload: Payload::Text(long) },
    );
    assert_eq!(out, reply(5, ReplyBody::Error(ClientError::MalformedPayload)));
    assert!(!s.is_dirty());
    assert!(s.peek().is_none());
}

#[test]
fn set_text_non_ascii_is_malformed() {
    let mut d = Dispatcher::new(123);
    let mut s = SharedDisplayState::new();
    let out = d.dispatch(
        &mut s,
        Request { seq_no: 6, op_id: OP_SET_TEXT, payload: Payload::Text(String::from("héllo")) },
    );
    assert_eq!(out, reply(6, ReplyBody::Error(ClientError::MalformedPayload)));
    assert!(!s.is_dirty());
}

#[test]
fn every_known_operation_yields_one_reply_or_one_spawn() {
    // Concrete check of the exactly-one law: each well-formed request with a
    // known id is answered or spawned, except the terminal reboot.
    let mut d = Dispatcher::new(123);
    let mut s = SharedDisplayState::new();
    let cases: Vec<(u16, Payload)> = vec![
        (OP_UNIQUE_ID, Payload::Empty),
        (OP_SET_LED, Payload::Led(LedState::Off)),
        (OP_GET_LED, Payload::Empty),
        (OP_SET_TEXT, Payload::Text(String::from("hi"))),
        (OP_SLEEP, Payload::Sleep(SleepMillis { millis: 1 })),
    ];
    let mut seq: u32 = 0;
    for (op_id, payload) in cases {
        seq += 1;
        let out = d.dispatch(&mut s, Request { seq_no: seq, op_id, payload });
        match out {
            DispatchOutcome::Replied(r) => assert_eq!(r.seq_no, seq),
            DispatchOutcome::Spawned(t) => assert_eq!(t.seq_no, seq),
            DispatchOutcome::Terminated => panic!("only reboot may terminate"),
        }
    }
    assert_eq!(SLEEP_POOL_CAPACITY, 3);
}

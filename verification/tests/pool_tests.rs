use badger_server::dispatch::{DispatchOutcome, Dispatcher};
use badger_server::display::SharedDisplayState;
use badger_server::icd::{ClientError, Payload, ReplyBody, Request, SleepMillis, OP_SLEEP};
use badger_server::pool::SlotPool;
use badger_server::tasks::SleepTask;

fn sleep_request(seq_no: u32, millis: u16) -> Request {
    Request { seq_no, op_id: OP_SLEEP, payload: Payload::Sleep(SleepMillis { millis }) }
}

fn expect_spawn(out: DispatchOutcome) -> SleepTask {
    match out {
        DispatchOutcome::Spawned(t) => t,
        other => panic!("expected a spawn, got {:?}", other),
    }
}

#[test]
fn scenario_pool_of_three_rejects_fourth_then_recovers() {
    let mut d = Dispatcher::new(123);
    let mut s = SharedDisplayState::new();

    // Three concurrent sleeps are accepted ...
    let t1 = expect_spawn(d.dispatch(&mut s, sleep_request(1, 500)));
    let t2 = expect_spawn(d.dispatch(&mut s, sleep_request(2, 500)));
    let t3 = expect_spawn(d.dispatch(&mut s, sleep_request(3, 500)));
    assert_eq!(d.pending_sleeps(), 3);

    // ... a fourth is rejected at once, with nothing spawned for it.
    let out = d.dispatch(&mut s, sleep_request(4, 500));
    assert_eq!(
        out,
        DispatchOutcome::Replied(badger_server::icd::Reply {
            seq_no: 4,
            body: ReplyBody::Error(ClientError::PoolExhausted),
        })
    );
    assert_eq!(d.pending_sleeps(), 3);

    // The three run to completion, each sending its one final reply.
    for mut t in [t1, t2, t3] {
        let seq = t.seq_no;
        assert_eq!(t.begin(), "Starting sleep...");
        let (log, reply) = t.finish(500);
        assert_eq!(log, "Finished sleep");
        assert_eq!(reply.seq_no, seq);
        assert_eq!(reply.body, ReplyBody::Slept(badger_server::icd::SleptMillis { millis: 500 }));
        d.retire_task(&t);
    }
    assert_eq!(d.pending_sleeps(), 0);

    // With the pool open again, a new request is accepted.
    let t5 = expect_spawn(d.dispatch(&mut s, sleep_request(5, 100)));
    assert_eq!(t5.seq_no, 5);
    assert_eq!(t5.millis, 100);
}

#[test]
fn slot_pool_counts_acquire_and_release() {
    let mut p = SlotPool::new(2);
    assert_eq!(p.used_slots(), 0);
    assert!(p.try_acquire());
    assert!(p.try_acquire());
    assert_eq!(p.used_slots(), 2);
    assert!(!p.try_acquire());
    assert_eq!(p.used_slots(), 2);
    p.release();
    assert_eq!(p.used_slots(), 1);
    assert!(p.try_acquire());
    assert!(!p.try_acquire());
}

#[test]
fn sleep_reply_echoes_measured_time() {
    let mut d = Dispatcher::new(123);
    let mut s = SharedDisplayState::new();
    let mut t = expect_spawn(d.dispatch(&mut s, sleep_request(42, 250)));
    t.begin();
    let (_, reply) = t.finish(261);
    assert_eq!(reply.seq_no, 42);
    assert_eq!(reply.body, ReplyBody::Slept(badger_server::icd::SleptMillis { millis: 261 }));
}

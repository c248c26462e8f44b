//! Laws of the dispatch model: what holds of every request, not just of
//! the scenarios the test suite replays.

use vstd::prelude::*;

use crate::device::DeviceContext;
use crate::dispatch::{
    dispatch_outcome_model, err_reply, is_effective_set_led, known_op, led_after,
    payload_shape_ok, pool_after, DispatchOutcome,
};
use crate::icd::{
    ClientError, LedState, Reply, ReplyBody, Request, OP_GET_LED, OP_PICOBOOT_RESET, OP_SLEEP,
};

verus! {

/// For every well-formed request with a known operation id, dispatch
/// produces exactly one immediate reply or exactly one accepted spawn —
/// the outcome type admits no "both" and no "neither" — except the reboot
/// operation, which by design produces neither: its outcome is the
/// terminal `Terminated`.
pub proof fn lemma_dispatch_exactly_one(ctx: DeviceContext, slot_free: bool, req: Request)
    requires
        known_op(req.op_id),
        payload_shape_ok(req.op_id, req.payload),
    ensures
        req.op_id != OP_PICOBOOT_RESET ==> (dispatch_outcome_model(ctx, slot_free, req) is Replied
            || dispatch_outcome_model(ctx, slot_free, req) is Spawned),
        req.op_id == OP_PICOBOOT_RESET ==> dispatch_outcome_model(ctx, slot_free, req)
            is Terminated,
{
}

/// With every slot of a sleep pool in flight, one more well-formed sleep
/// request draws an immediate busy reply and spawns nothing: the in-flight
/// count stays where it was. With a slot free the same request is accepted
/// as a spawn — completions reopen the pool.
pub proof fn lemma_pool_exhausted_rejected(ctx: DeviceContext, capacity: int, req: Request)
    requires
        req.op_id == OP_SLEEP,
        payload_shape_ok(req.op_id, req.payload),
    ensures
        dispatch_outcome_model(ctx, false, req) == DispatchOutcome::Replied(
            err_reply(req.seq_no, ClientError::PoolExhausted),
        ),
        pool_after(capacity, capacity, req) == capacity,
        dispatch_outcome_model(ctx, true, req) is Spawned,
{
}

/// The request is a sleep that the dispatcher would hand to the pool.
pub open spec fn is_well_formed_sleep(req: Request) -> bool {
    req.op_id == OP_SLEEP && payload_shape_ok(req.op_id, req.payload)
}

/// The sleep pool's in-flight count after a whole arrival-ordered batch of
/// requests, starting from an empty pool.
pub open spec fn pool_after_all(capacity: int, reqs: Seq<Request>) -> int
    decreases reqs.len(),
{
    if reqs.len() == 0 {
        0
    } else {
        pool_after(pool_after_all(capacity, reqs.drop_last()), capacity, reqs.last())
    }
}

/// A batch of well-formed sleep requests no larger than the capacity is
/// accepted in full: each spawn takes one slot.
pub proof fn lemma_pool_accepts_up_to_capacity(capacity: int, reqs: Seq<Request>)
    requires
        reqs.len() <= capacity,
        forall|i: int| 0 <= i < reqs.len() ==> is_well_formed_sleep(#[trigger] reqs[i]),
    ensures
        pool_after_all(capacity, reqs) == reqs.len(),
    decreases reqs.len(),
{
    if reqs.len() > 0 {
        assert forall|i: int|
            0 <= i < reqs.drop_last().len() implies is_well_formed_sleep(
            #[trigger] reqs.drop_last()[i],
        ) by {
            assert(reqs.drop_last()[i] == reqs[i]);
        }
        lemma_pool_accepts_up_to_capacity(capacity, reqs.drop_last());
        assert(is_well_formed_sleep(reqs[reqs.len() - 1]));
    }
}

/// Spawning one more concurrent sleep than the pool's capacity, before any
/// completes, fills the pool with the first `capacity` many and draws an
/// immediate busy reply for the last, with no slot taken for it.
pub proof fn lemma_overfull_batch_rejects_last(
    ctx: DeviceContext,
    capacity: int,
    reqs: Seq<Request>,
    extra: Request,
)
    requires
        capacity >= 0,
        reqs.len() == capacity,
        forall|i: int| 0 <= i < reqs.len() ==> is_well_formed_sleep(#[trigger] reqs[i]),
        is_well_formed_sleep(extra),
    ensures
        pool_after_all(capacity, reqs) == capacity,
        dispatch_outcome_model(ctx, pool_after_all(capacity, reqs) < capacity, extra)
            == DispatchOutcome::Replied(err_reply(extra.seq_no, ClientError::PoolExhausted)),
        pool_after_all(capacity, reqs.push(extra)) == capacity,
{
    lemma_pool_accepts_up_to_capacity(capacity, reqs);
    assert(reqs.push(extra).drop_last() =~= reqs);
    assert(reqs.push(extra).last() == extra);
}

/// The pin position after a whole arrival-ordered batch of requests.
pub open spec fn led_after_all(led: LedState, reqs: Seq<Request>) -> LedState
    decreases reqs.len(),
{
    if reqs.len() == 0 {
        led
    } else {
        led_after(led_after_all(led, reqs.drop_last()), reqs.last())
    }
}

/// A batch with no well-formed set-led in it leaves the pin untouched.
pub proof fn lemma_led_preserved(led: LedState, reqs: Seq<Request>)
    requires
        forall|i: int| 0 <= i < reqs.len() ==> !is_effective_set_led(#[trigger] reqs[i]),
    ensures
        led_after_all(led, reqs) == led,
    decreases reqs.len(),
{
    if reqs.len() > 0 {
        assert forall|i: int|
            0 <= i < reqs.drop_last().len() implies !is_effective_set_led(
            #[trigger] reqs.drop_last()[i],
        ) by {
            assert(reqs.drop_last()[i] == reqs[i]);
        }
        lemma_led_preserved(led, reqs.drop_last());
        assert(!is_effective_set_led(reqs[reqs.len() - 1]));
    }
}

/// Reading the pin state is idempotent: two well-formed get requests with
/// no well-formed set dispatched between them reply with the same
/// position, whatever else ran in between and whatever the sleep pool did.
pub proof fn lemma_get_led_idempotent(
    ctx: DeviceContext,
    between: Seq<Request>,
    slot_free1: bool,
    slot_free2: bool,
    g1: Request,
    g2: Request,
)
    requires
        g1.op_id == OP_GET_LED,
        payload_shape_ok(g1.op_id, g1.payload),
        g2.op_id == OP_GET_LED,
        payload_shape_ok(g2.op_id, g2.payload),
        forall|i: int| 0 <= i < between.len() ==> !is_effective_set_led(#[trigger] between[i]),
    ensures
        dispatch_outcome_model(ctx, slot_free1, g1) == DispatchOutcome::Replied(
            Reply { seq_no: g1.seq_no, body: ReplyBody::Led(ctx.led) },
        ),
        dispatch_outcome_model(
            DeviceContext { unique_id: ctx.unique_id, led: led_after_all(ctx.led, between) },
            slot_free2,
            g2,
        ) == DispatchOutcome::Replied(Reply { seq_no: g2.seq_no, body: ReplyBody::Led(ctx.led) }),
{
    lemma_led_preserved(ctx.led, between);
}

} // verus!

//! The command dispatcher: the single entry point consuming requests.
//!
//! The dispatcher reads one request at a time, in arrival order, and routes
//! it by operation id. An unknown id or a payload of the wrong shape is
//! answered at once with a typed client error; the loop continues
//! unaffected. An immediate operation runs synchronously, with exclusive
//! access to the device context, and its automatic reply goes straight
//! back. A deferred operation is spawned as an independent task if its pool
//! has a free slot, and the dispatcher moves on without waiting; with no
//! slot free the request is rejected as busy, never queued. The reboot
//! operation is terminal: the outcome tells the surrounding loop to issue
//! the hardware reset and never resume dispatch.
//!
//! Dispatch order is the arrival order; completion order of spawned tasks
//! is deliberately unspecified.

use vstd::prelude::*;

use crate::device::DeviceContext;
use crate::display::{flag_step, text_ok, write_step, DisplayModel, SharedDisplayState};
use crate::handlers::{get_led, led_text, set_led, set_text, unique_id};
use crate::icd::{
    ClientError, LedState, Payload, Reply, ReplyBody, Request, OP_GET_LED, OP_PICOBOOT_RESET,
    OP_SET_LED, OP_SET_TEXT, OP_SLEEP, OP_UNIQUE_ID,
};
use crate::pool::SlotPool;
use crate::tasks::{SleepPhase, SleepTask};

verus! {

/// How many sleep tasks may be in flight at once. A fourth concurrent
/// request is rejected as busy, never queued.
pub const SLEEP_POOL_CAPACITY: usize = 3;

/// What one dispatch produced. The type admits exactly one of the three:
/// a reply and a spawn can never both come out of the same request.
#[derive(Debug, PartialEq, Eq)]
pub enum DispatchOutcome {
    /// The one immediate reply to send back.
    Replied(Reply),
    /// The one accepted deferred task; no reply is sent until it finishes.
    Spawned(SleepTask),
    /// The reboot operation: the caller issues the hardware reset and the
    /// dispatch loop never resumes. No reply is ever sent.
    Terminated,
}

/// The operation ids the handler table knows, fixed at startup.
pub open spec fn known_op(op_id: u16) -> bool {
    op_id == OP_UNIQUE_ID || op_id == OP_PICOBOOT_RESET || op_id == OP_SET_LED || op_id
        == OP_GET_LED || op_id == OP_SET_TEXT || op_id == OP_SLEEP
}

/// The payload has the shape the operation expects.
pub open spec fn payload_shape_ok(op_id: u16, p: Payload) -> bool {
    match p {
        Payload::Empty => op_id == OP_UNIQUE_ID || op_id == OP_PICOBOOT_RESET || op_id
            == OP_GET_LED,
        Payload::Led(_) => op_id == OP_SET_LED,
        Payload::Text(_) => op_id == OP_SET_TEXT,
        Payload::Sleep(_) => op_id == OP_SLEEP,
    }
}

/// The text a set-text request carries.
pub open spec fn requested_text(req: Request) -> Seq<char> {
    match req.payload {
        Payload::Text(s) => s@,
        _ => Seq::<char>::empty(),
    }
}

/// The pin position a set-led request carries.
pub open spec fn requested_led(req: Request) -> LedState {
    match req.payload {
        Payload::Led(s) => s,
        _ => LedState::Off,
    }
}

/// The duration a sleep request carries.
pub open spec fn requested_sleep(req: Request) -> u16 {
    match req.payload {
        Payload::Sleep(m) => m.millis,
        _ => 0,
    }
}

/// The error reply correlated to a request.
pub open spec fn err_reply(seq_no: u32, e: ClientError) -> Reply {
    Reply { seq_no, body: ReplyBody::Error(e) }
}

/// The outcome dispatch owes for a request, given the context it read and
/// whether the sleep pool had a free slot.
pub open spec fn dispatch_outcome_model(
    ctx: DeviceContext,
    slot_free: bool,
    req: Request,
) -> DispatchOutcome {
    if !known_op(req.op_id) {
        DispatchOutcome::Replied(err_reply(req.seq_no, ClientError::NoSuchOperation))
    } else if !payload_shape_ok(req.op_id, req.payload) {
        DispatchOutcome::Replied(err_reply(req.seq_no, ClientError::MalformedPayload))
    } else if req.op_id == OP_UNIQUE_ID {
        DispatchOutcome::Replied(Reply { seq_no: req.seq_no, body: ReplyBody::UniqueId(ctx.unique_id) })
    } else if req.op_id == OP_PICOBOOT_RESET {
        DispatchOutcome::Terminated
    } else if req.op_id == OP_SET_LED {
        DispatchOutcome::Replied(Reply { seq_no: req.seq_no, body: ReplyBody::LedSet })
    } else if req.op_id == OP_GET_LED {
        DispatchOutcome::Replied(Reply { seq_no: req.seq_no, body: ReplyBody::Led(ctx.led) })
    } else if req.op_id == OP_SET_TEXT {
        if text_ok(requested_text(req)) {
            DispatchOutcome::Replied(Reply { seq_no: req.seq_no, body: ReplyBody::TextSet })
        } else {
            DispatchOutcome::Replied(err_reply(req.seq_no, ClientError::MalformedPayload))
        }
    } else {
        if slot_free {
            DispatchOutcome::Spawned(
                SleepTask {
                    seq_no: req.seq_no,
                    millis: requested_sleep(req),
                    phase: SleepPhase::Starting,
                },
            )
        } else {
            DispatchOutcome::Replied(err_reply(req.seq_no, ClientError::PoolExhausted))
        }
    }
}

/// The request is a set-led that will actually run.
pub open spec fn is_effective_set_led(req: Request) -> bool {
    req.op_id == OP_SET_LED && payload_shape_ok(req.op_id, req.payload)
}

/// The pin position after one dispatch: only a well-formed set-led moves it.
pub open spec fn led_after(led: LedState, req: Request) -> LedState {
    if is_effective_set_led(req) {
        requested_led(req)
    } else {
        led
    }
}

/// The shared display state after one dispatch: the two handlers that show
/// something perform the write-then-flag sequence; everything else leaves
/// the display alone.
pub open spec fn display_after(m: DisplayModel, req: Request) -> DisplayModel {
    if is_effective_set_led(req) {
        flag_step(write_step(m, led_text(requested_led(req))))
    } else if req.op_id == OP_SET_TEXT && payload_shape_ok(req.op_id, req.payload) && text_ok(
        requested_text(req),
    ) {
        flag_step(write_step(m, requested_text(req)))
    } else {
        m
    }
}

/// The sleep pool's in-flight count after one dispatch: only an accepted
/// sleep takes a slot.
pub open spec fn pool_after(in_flight: int, capacity: int, req: Request) -> int {
    if req.op_id == OP_SLEEP && payload_shape_ok(req.op_id, req.payload) && in_flight < capacity {
        in_flight + 1
    } else {
        in_flight
    }
}

/// The dispatch path's own state: the device context it exclusively owns
/// and the slot pool of the one deferred operation.
pub struct Dispatcher {
    /// Exclusively owned by the dispatch path; handed to immediate handlers
    /// one synchronous call at a time, never to a deferred task.
    pub context: DeviceContext,
    /// The slot pool of the one deferred operation in the catalog.
    pub sleep_pool: SlotPool,
}

impl Dispatcher {
    /// Sleep tasks currently holding a slot.
    pub open spec fn sleep_in_flight(&self) -> int {
        self.sleep_pool.in_flight()
    }

    /// The pool is sound and was built with the declared capacity.
    pub open spec fn wf(&self) -> bool {
        self.sleep_pool.wf() && self.sleep_pool.capacity() == SLEEP_POOL_CAPACITY as int
    }

    /// A dispatcher for a device with the given identity: pin low, no task
    /// in flight.
    pub fn new(unique_id: u64) -> (r: Dispatcher)
        ensures
            r.wf(),
            r.context.unique_id == unique_id,
            r.context.led == LedState::Off,
            r.sleep_in_flight() == 0,
    {
        Dispatcher {
            context: DeviceContext::new(unique_id),
            sleep_pool: SlotPool::new(SLEEP_POOL_CAPACITY),
        }
    }

    /// How many sleep tasks hold a slot right now.
    pub fn pending_sleeps(&self) -> (r: usize)
        ensures
            r == self.sleep_in_flight(),
    {
        self.sleep_pool.used_slots()
    }

    /// Route one request. Exactly one outcome comes back: an immediate
    /// reply, an accepted spawn, or the terminal reboot.
    pub fn dispatch(&mut self, shared: &mut SharedDisplayState, req: Request) -> (out:
        DispatchOutcome)
        requires
            old(self).wf(),
            old(shared).wf(),
        ensures
            final(self).wf(),
            final(shared).wf(),
            final(self).context.unique_id == old(self).context.unique_id,
            out == dispatch_outcome_model(
                old(self).context,
                old(self).sleep_in_flight() < SLEEP_POOL_CAPACITY as int,
                req,
            ),
            final(self).context.led == led_after(old(self).context.led, req),
            final(shared)@ == display_after(old(shared)@, req),
            final(self).sleep_in_flight() == pool_after(
                old(self).sleep_in_flight(),
                SLEEP_POOL_CAPACITY as int,
                req,
            ),
    {
        let Request { seq_no, op_id, payload } = req;
        if op_id == OP_UNIQUE_ID {
            match payload {
                Payload::Empty => DispatchOutcome::Replied(unique_id(&self.context, seq_no)),
                _ => DispatchOutcome::Replied(
                    Reply { seq_no, body: ReplyBody::Error(ClientError::MalformedPayload) },
                ),
            }
        } else if op_id == OP_PICOBOOT_RESET {
            match payload {
                Payload::Empty => DispatchOutcome::Terminated,
                _ => DispatchOutcome::Replied(
                    Reply { seq_no, body: ReplyBody::Error(ClientError::MalformedPayload) },
                ),
            }
        } else if op_id == OP_SET_LED {
            match payload {
                Payload::Led(arg) => DispatchOutcome::Replied(
                    set_led(&mut self.context, shared, seq_no, arg),
                ),
                _ => DispatchOutcome::Replied(
                    Reply { seq_no, body: ReplyBody::Error(ClientError::MalformedPayload) },
                ),
            }
        } else if op_id == OP_GET_LED {
            match payload {
                Payload::Empty => DispatchOutcome::Replied(get_led(&self.context, seq_no)),
                _ => DispatchOutcome::Replied(
                    Reply { seq_no, body: ReplyBody::Error(ClientError::MalformedPayload) },
                ),
            }
        } else if op_id == OP_SET_TEXT {
            match payload {
                Payload::Text(arg) => DispatchOutcome::Replied(set_text(shared, seq_no, &arg)),
                _ => DispatchOutcome::Replied(
                    Reply { seq_no, body: ReplyBody::Error(ClientError::MalformedPayload) },
                ),
            }
        } else if op_id == OP_SLEEP {
            match payload {
                Payload::Sleep(arg) => {
                    if self.sleep_pool.try_acquire() {
                        DispatchOutcome::Spawned(
                            SleepTask {
                                seq_no,
                                millis: arg.millis,
                                phase: SleepPhase::Starting,
                            },
                        )
                    } else {
                        DispatchOutcome::Replied(
                            Reply { seq_no, body: ReplyBody::Error(ClientError::PoolExhausted) },
                        )
                    }
                },
                _ => DispatchOutcome::Replied(
                    Reply { seq_no, body: ReplyBody::Error(ClientError::MalformedPayload) },
                ),
            }
        } else {
            DispatchOutcome::Replied(
                Reply { seq_no, body: ReplyBody::Error(ClientError::NoSuchOperation) },
            )
        }
    }

    /// A spawned task ran to completion (it sent its final reply, or its
    /// send failed and the result was dropped): its slot goes back to the
    /// pool either way.
    pub fn retire_task(&mut self, task: &SleepTask)
        requires
            old(self).wf(),
            task.phase == SleepPhase::Done,
        ensures
            final(self).wf(),
            final(self).context == old(self).context,
            old(self).sleep_in_flight() > 0 ==> final(self).sleep_in_flight() == old(
                self,
            ).sleep_in_flight() - 1,
            old(self).sleep_in_flight() == 0 ==> final(self).sleep_in_flight() == 0,
    {
        self.sleep_pool.release();
    }
}

} // verus!

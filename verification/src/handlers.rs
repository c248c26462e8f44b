//! Immediate handlers: operations run synchronously on the dispatch path.
//!
//! An immediate handler gets exclusive, temporary access to the device
//! context and may touch the shared display state; it performs only
//! constant-time local mutation and never suspends, because a stalled
//! immediate handler stalls the whole dispatch path. Each one returns the
//! automatic reply the dispatcher sends back.
//!
//! The reboot-into-loader operation is also immediate but terminal: it
//! issues the hardware reset and never returns, so it appears here only as
//! the dispatcher's `Terminated` outcome, not as a function.

use vstd::prelude::*;
use vstd::string::StrSliceExecFns;

use crate::device::DeviceContext;
use crate::display::{flag_step, text_ok, write_step, SharedDisplayState, TEXT_CAPACITY};
use crate::icd::{ClientError, LedState, Reply, ReplyBody};

verus! {

/// The status line shown for each pin position.
pub open spec fn led_text(s: LedState) -> Seq<char> {
    if s == LedState::On {
        "LED is On"@
    } else {
        "LED is Off"@
    }
}

/// The status line fits the display buffer whichever position it reports.
pub proof fn lemma_led_text_ok(s: LedState)
    ensures
        text_ok(led_text(s)),
{
    reveal_strlit("LED is On");
    reveal_strlit("LED is Off");
}

/// Report the device identity. Reads the context, changes nothing.
pub fn unique_id(context: &DeviceContext, seq_no: u32) -> (r: Reply)
    ensures
        r == (Reply { seq_no, body: ReplyBody::UniqueId(context.unique_id) }),
{
    Reply { seq_no, body: ReplyBody::UniqueId(context.unique_id) }
}

/// Drive the output pin and put the matching status line up on the display:
/// text first, under the lock, then the dirty flag.
pub fn set_led(
    context: &mut DeviceContext,
    shared: &mut SharedDisplayState,
    seq_no: u32,
    arg: LedState,
) -> (r: Reply)
    requires
        old(shared).wf(),
    ensures
        final(context).led == arg,
        final(context).unique_id == old(context).unique_id,
        final(shared)@ == flag_step(write_step(old(shared)@, led_text(arg))),
        final(shared).wf(),
        r == (Reply { seq_no, body: ReplyBody::LedSet }),
{
    proof {
        lemma_led_text_ok(arg);
    }
    match arg {
        LedState::Off => shared.publish_text("LED is Off"),
        LedState::On => shared.publish_text("LED is On"),
    }
    context.set(arg);
    Reply { seq_no, body: ReplyBody::LedSet }
}

/// Read the output pin position back.
pub fn get_led(context: &DeviceContext, seq_no: u32) -> (r: Reply)
    ensures
        r == (Reply { seq_no, body: ReplyBody::Led(context.led) }),
{
    Reply { seq_no, body: ReplyBody::Led(context.get()) }
}

/// Put a host-chosen text up on the display. A text the buffer cannot hold
/// in full is rejected as a malformed payload and the display is left
/// untouched.
pub fn set_text(shared: &mut SharedDisplayState, seq_no: u32, arg: &str) -> (r: Reply)
    requires
        old(shared).wf(),
    ensures
        final(shared).wf(),
        text_ok(arg@) ==> final(shared)@ == flag_step(write_step(old(shared)@, arg@)) && r == (
        Reply { seq_no, body: ReplyBody::TextSet }),
        !text_ok(arg@) ==> final(shared)@ == old(shared)@ && r == (Reply {
            seq_no,
            body: ReplyBody::Error(ClientError::MalformedPayload),
        }),
{
    if arg.is_ascii() && arg.unicode_len() <= TEXT_CAPACITY {
        shared.publish_text(arg);
        Reply { seq_no, body: ReplyBody::TextSet }
    } else {
        Reply { seq_no, body: ReplyBody::Error(ClientError::MalformedPayload) }
    }
}

} // verus!

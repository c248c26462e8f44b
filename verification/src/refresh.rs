//! The display refresh task's protocol: when and why a redraw happens.
//!
//! The task runs independently of the dispatcher. Once at startup it resets
//! the panel and performs the full setup; if the setup fails it logs the
//! error and keeps running in a degraded state, because the display is not
//! worth halting the device for. Thereafter it cycles Idle → Redrawing →
//! Idle: on each poll tick it checks the dirty flag, copies the pending
//! text out when the flag is up, hands it to the panel for a partial
//! redraw, and lowers the flag once the redraw is out.
//!
//! The panel driver itself (reset, setup, draw, partial update) is an
//! outside collaborator; the loop that awaits it performs these steps in
//! order and feeds their results back in.

use vstd::prelude::*;

use crate::display::{consume_step, SharedDisplayState};
use crate::textbuf::text_chars;

verus! {

/// Where the refresh task stands in its cycle.
#[derive(Clone, Copy, Debug, PartialEq, Eq, Structural)]
pub enum RefreshPhase {
    /// Panel reset and full setup have not completed yet.
    Init,
    /// Waiting for the next poll tick.
    Idle,
    /// A copy of the pending text is out for a partial redraw.
    Redrawing,
}

/// The refresh task's own state.
pub struct DisplayRefreshTask {
    /// Current position in the Init → Idle → Redrawing cycle.
    pub phase: RefreshPhase,
    /// Whether the one-time panel setup succeeded. When it failed the task
    /// keeps polling anyway; partial updates may no-op against the
    /// unconfigured panel.
    pub panel_ready: bool,
}

impl DisplayRefreshTask {
    /// The task before the one-time panel setup has run.
    pub fn new() -> (r: DisplayRefreshTask)
        ensures
            r.phase == RefreshPhase::Init,
            !r.panel_ready,
    {
        DisplayRefreshTask { phase: RefreshPhase::Init, panel_ready: false }
    }

    /// Record the outcome of the one-time panel setup. A failure is not
    /// fatal: the task enters its polling cycle either way, merely degraded.
    pub fn complete_setup(&mut self, setup_ok: bool)
        requires
            old(self).phase == RefreshPhase::Init,
        ensures
            final(self).phase == RefreshPhase::Idle,
            final(self).panel_ready == setup_ok,
    {
        self.panel_ready = setup_ok;
        self.phase = RefreshPhase::Idle;
    }

    /// One poll tick. When the dirty flag is up, take a copy of the pending
    /// text for the partial redraw and move to Redrawing; otherwise stay
    /// Idle and do nothing. The flag itself stays up until the redraw is
    /// out ([`Self::redraw_done`]).
    pub fn poll(&mut self, shared: &SharedDisplayState) -> (r: Option<heapless::String<120>>)
        requires
            old(self).phase == RefreshPhase::Idle,
        ensures
            final(self).panel_ready == old(self).panel_ready,
            shared@.dirty ==> (r matches Some(b) && text_chars(b) == shared@.text
                && final(self).phase == RefreshPhase::Redrawing),
            !shared@.dirty ==> r is None && final(self).phase == RefreshPhase::Idle,
    {
        let r = shared.peek();
        if r.is_some() {
            self.phase = RefreshPhase::Redrawing;
        }
        r
    }

    /// The partial redraw went out: lower the dirty flag and go back to
    /// Idle until the next tick.
    pub fn redraw_done(&mut self, shared: &mut SharedDisplayState)
        requires
            old(self).phase == RefreshPhase::Redrawing,
            old(shared).wf(),
        ensures
            final(self).phase == RefreshPhase::Idle,
            final(self).panel_ready == old(self).panel_ready,
            final(shared)@ == consume_step(old(shared)@),
            final(shared).wf(),
    {
        shared.clear_dirty();
        self.phase = RefreshPhase::Idle;
    }
}

} // verus!

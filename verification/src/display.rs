//! Shared display state: the pending text and the dirty flag.
//!
//! On the device the text sits behind a mutual-exclusion lock and the dirty
//! flag is a single lock-free word, because the two cannot be updated as one
//! atomic store. The tasks are cooperatively scheduled, so each critical
//! section and each flag access is one indivisible step; the model below
//! makes those steps explicit. A writer first replaces the text (one locked
//! step), then raises the flag (a second step). The refresh task reads the
//! text only when it sees the flag up, and lowers the flag once the redraw
//! is out. Writing the flag first would let the refresh task race ahead of
//! content that is not ready; the laws at the bottom show the chosen order
//! never exposes a partial write.

use vstd::prelude::*;
use vstd::utf8::is_ascii_chars;

use crate::textbuf::{text_chars, text_clear, text_clone, text_new, text_push_str};

verus! {

/// Capacity of the text buffer, in bytes.
pub const TEXT_CAPACITY: usize = 120;

/// A text the buffer can hold in full: ASCII, and no longer than the
/// capacity (for ASCII, bytes and characters coincide).
pub open spec fn text_ok(s: Seq<char>) -> bool {
    is_ascii_chars(s) && s.len() <= TEXT_CAPACITY
}

/// The abstract value of the shared display state.
#[verifier::ext_equal]
pub struct DisplayModel {
    pub text: Seq<char>,
    pub dirty: bool,
}

/// A writer's first step: replace the text under the lock. The flag is not
/// touched inside the critical section.
pub open spec fn write_step(m: DisplayModel, t: Seq<char>) -> DisplayModel {
    DisplayModel { text: t, dirty: m.dirty }
}

/// A writer's second step: raise the dirty flag, after the lock is released.
pub open spec fn flag_step(m: DisplayModel) -> DisplayModel {
    DisplayModel { text: m.text, dirty: true }
}

/// The refresh task's closing step: lower the flag once the redraw is done.
pub open spec fn consume_step(m: DisplayModel) -> DisplayModel {
    DisplayModel { text: m.text, dirty: false }
}

/// What a refresh poll sees: the pending text when the flag is up, nothing
/// otherwise.
pub open spec fn observed(m: DisplayModel) -> Option<Seq<char>> {
    if m.dirty {
        Some(m.text)
    } else {
        None
    }
}

/// The shared state itself: a bounded text cell plus the dirty flag.
pub struct SharedDisplayState {
    text: heapless::String<120>,
    dirty: bool,
}

impl View for SharedDisplayState {
    type V = DisplayModel;

    closed spec fn view(&self) -> DisplayModel {
        DisplayModel { text: text_chars(self.text), dirty: self.dirty }
    }
}

impl SharedDisplayState {
    /// The text cell only ever holds a text the buffer can represent.
    pub open spec fn wf(&self) -> bool {
        text_ok(self@.text)
    }

    /// The state every task starts from: empty text, flag down.
    pub fn new() -> (r: SharedDisplayState)
        ensures
            r@.text == Seq::<char>::empty(),
            !r@.dirty,
            r.wf(),
    {
        SharedDisplayState { text: text_new(), dirty: false }
    }

    /// Replace the pending text. This is the locked critical section of a
    /// writer: it must not raise the flag, so that the refresh task never
    /// finds the flag up while the text is mid-update.
    pub fn write_text(&mut self, s: &str)
        requires
            old(self).wf(),
            text_ok(s@),
        ensures
            final(self)@ == write_step(old(self)@, s@),
            final(self).wf(),
    {
        text_clear(&mut self.text);
        let r = text_push_str(&mut self.text, s);
        proof {
            assert(Seq::<char>::empty() + s@ =~= s@);
            assert(self@ =~= write_step(old(self)@, s@));
        }
    }

    /// Raise the dirty flag. A writer calls this only after its critical
    /// section is over.
    pub fn mark_dirty(&mut self)
        requires
            old(self).wf(),
        ensures
            final(self)@ == flag_step(old(self)@),
            final(self).wf(),
    {
        self.dirty = true;
    }

    /// The whole write-then-flag sequence of a writer.
    pub fn publish_text(&mut self, s: &str)
        requires
            old(self).wf(),
            text_ok(s@),
        ensures
            final(self)@ == flag_step(write_step(old(self)@, s@)),
            final(self).wf(),
    {
        self.write_text(s);
        self.mark_dirty();
    }

    /// Whether the dirty flag is up: one lock-free word read.
    pub fn is_dirty(&self) -> (r: bool)
        ensures
            r == self@.dirty,
    {
        self.dirty
    }

    /// What the refresh task sees when it polls: a copy of the pending text
    /// when the flag is up, nothing otherwise. The flag stays as it is; it
    /// is lowered only after the redraw, by [`Self::clear_dirty`].
    pub fn peek(&self) -> (r: Option<heapless::String<120>>)
        ensures
            self@.dirty ==> (r matches Some(b) && text_chars(b) == self@.text),
            !self@.dirty ==> r is None,
    {
        if self.dirty {
            Some(text_clone(&self.text))
        } else {
            None
        }
    }

    /// Lower the dirty flag once a redraw has gone out.
    pub fn clear_dirty(&mut self)
        requires
            old(self).wf(),
        ensures
            final(self)@ == consume_step(old(self)@),
            final(self).wf(),
    {
        self.dirty = false;
    }
}

/// One indivisible step some task takes on the shared state: a writer's
/// locked text replacement, a writer's flag store, or the refresh task's
/// flag clear.
pub enum DisplayStep {
    Write(Seq<char>),
    Flag,
    Consume,
}

/// The effect of one step on the abstract state.
pub open spec fn apply_step(m: DisplayModel, s: DisplayStep) -> DisplayModel {
    match s {
        DisplayStep::Write(t) => write_step(m, t),
        DisplayStep::Flag => flag_step(m),
        DisplayStep::Consume => consume_step(m),
    }
}

/// The state after an arbitrary interleaving of steps.
pub open spec fn run_steps(m: DisplayModel, steps: Seq<DisplayStep>) -> DisplayModel
    decreases steps.len(),
{
    if steps.len() == 0 {
        m
    } else {
        apply_step(run_steps(m, steps.drop_last()), steps.last())
    }
}

/// `t` is a text that was written in full: the initial contents, or the
/// whole argument of some writer's locked step in the history.
pub open spec fn fully_written(init: DisplayModel, steps: Seq<DisplayStep>, t: Seq<char>) -> bool {
    t == init.text || (exists|i: int|
        0 <= i < steps.len() && steps[i] == DisplayStep::Write(t))
}

/// After any interleaving of writer and refresh steps, the text cell holds a
/// fully written text: the lock makes each replacement one indivisible step,
/// so no interleaving can leave a partial mixture behind.
pub proof fn lemma_text_fully_written(init: DisplayModel, steps: Seq<DisplayStep>)
    ensures
        fully_written(init, steps, run_steps(init, steps).text),
    decreases steps.len(),
{
    if steps.len() > 0 {
        lemma_text_fully_written(init, steps.drop_last());
        let prev = run_steps(init, steps.drop_last());
        match steps.last() {
            DisplayStep::Write(t) => {
                assert(steps[steps.len() - 1] == DisplayStep::Write(t));
            },
            DisplayStep::Flag => {
                assert(run_steps(init, steps).text == prev.text);
            },
            DisplayStep::Consume => {
                assert(run_steps(init, steps).text == prev.text);
            },
        }
    }
}

/// Whenever the refresh task finds the flag up, the text it observes was
/// written in full by some writer (or is the initial contents); it never
/// observes a partial write, whatever the interleaving was.
pub proof fn lemma_observation_fully_written(init: DisplayModel, steps: Seq<DisplayStep>)
    ensures
        (observed(run_steps(init, steps)) matches Some(t) ==> fully_written(init, steps, t)),
{
    lemma_text_fully_written(init, steps);
}

/// Once a writer has completed its write-then-flag sequence, the next
/// refresh poll observes exactly the text that writer put up.
pub proof fn lemma_completed_write_observed(m: DisplayModel, t: Seq<char>)
    ensures
        observed(flag_step(write_step(m, t))) == Some(t),
{
}

/// Between the two steps of a writer that found the flag down, a refresh
/// poll observes nothing: the flag order keeps a half-finished update
/// invisible. (Raising the flag before writing the text would instead show
/// the stale contents as if they were the update.)
pub proof fn lemma_no_partial_observation(m: DisplayModel, t: Seq<char>)
    requires
        !m.dirty,
    ensures
        observed(write_step(m, t)) is None,
{
}

} // verus!

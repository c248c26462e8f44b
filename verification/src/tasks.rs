//! Deferred handlers: operations that run as independent tasks.
//!
//! A deferred handler is spawned by the dispatcher with the request's
//! metadata and runs concurrently with everything else. It may suspend, may
//! send log lines while it works, and must send exactly one final reply
//! correlated to the originating sequence number — the dispatcher never
//! synthesizes one for it. The phase field below makes that protocol a
//! state machine: the final reply exists only on the one transition out of
//! `Sleeping`, so a task can neither skip it nor repeat it.
//!
//! The only deferred operation in the catalog is the timed sleep. Its
//! waiting is outside work (a timer await); the task's own decisions — what
//! to log, what to reply — are below, and the loop that owns the timer
//! feeds the measured time back in.

use vstd::prelude::*;

use crate::icd::{Reply, ReplyBody, SleptMillis};

verus! {

/// Where a spawned sleep task stands.
#[derive(Clone, Copy, Debug, PartialEq, Eq, Structural)]
pub enum SleepPhase {
    /// Spawned, first log line not sent yet.
    Starting,
    /// Waiting out its timer.
    Sleeping,
    /// Final reply produced; the task is over and its pool slot may go back.
    Done,
}

/// One in-flight instance of the sleep operation.
#[derive(Clone, Copy, Debug, PartialEq, Eq, Structural)]
pub struct SleepTask {
    /// Sequence number of the originating request; the final reply echoes it.
    pub seq_no: u32,
    /// How long the task was asked to sleep.
    pub millis: u16,
    /// Position in the Starting → Sleeping → Done protocol.
    pub phase: SleepPhase,
}

impl SleepTask {
    /// First step after the spawn: announce the sleep. The returned log
    /// line goes out over the transport, best effort; then the task hands
    /// its timer to the scheduler.
    pub fn begin(&mut self) -> (log: &'static str)
        requires
            old(self).phase == SleepPhase::Starting,
        ensures
            final(self).phase == SleepPhase::Sleeping,
            final(self).seq_no == old(self).seq_no,
            final(self).millis == old(self).millis,
            log@ == "Starting sleep..."@,
    {
        self.phase = SleepPhase::Sleeping;
        "Starting sleep..."
    }

    /// The timer fired: produce the closing log line and the one final
    /// reply, carrying the measured elapsed time and the originating
    /// sequence number. If sending the reply fails the result is dropped
    /// silently — it is not retried, and no substitute error is produced.
    pub fn finish(&mut self, elapsed_millis: u16) -> (r: (&'static str, Reply))
        requires
            old(self).phase == SleepPhase::Sleeping,
        ensures
            final(self).phase == SleepPhase::Done,
            final(self).seq_no == old(self).seq_no,
            final(self).millis == old(self).millis,
            r.0@ == "Finished sleep"@,
            r.1 == (Reply {
                seq_no: old(self).seq_no,
                body: ReplyBody::Slept(SleptMillis { millis: elapsed_millis }),
            }),
    {
        self.phase = SleepPhase::Done;
        (
            "Finished sleep",
            Reply { seq_no: self.seq_no, body: ReplyBody::Slept(SleptMillis { millis: elapsed_millis }) },
        )
    }
}

} // verus!

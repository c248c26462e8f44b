//! Device context: the mutable device-level state owned by the dispatch
//! path.
//!
//! Only immediate handlers ever touch a `DeviceContext`, and only for the
//! duration of one synchronous call; deferred handlers never receive one.
//! That discipline is what makes the context safe without a lock: no other
//! task can race the dispatch path for it.

use vstd::prelude::*;

use crate::icd::LedState;

verus! {

/// The device-level state: a fixed identity and the output pin position.
pub struct DeviceContext {
    /// The device/session identifier surfaced to the host. It is fixed
    /// configuration, not a genuine hardware identity.
    pub unique_id: u64,
    /// The position last driven onto the output pin.
    pub led: LedState,
}

impl DeviceContext {
    /// The context the server starts with: the configured identity, pin low.
    pub fn new(unique_id: u64) -> (r: DeviceContext)
        ensures
            r.unique_id == unique_id,
            r.led == LedState::Off,
    {
        DeviceContext { unique_id, led: LedState::Off }
    }

    /// Drive the output pin.
    pub fn set(&mut self, s: LedState)
        ensures
            final(self).led == s,
            final(self).unique_id == old(self).unique_id,
    {
        self.led = s;
    }

    /// Read the output pin position back. Reading moves nothing: two reads
    /// without a `set` between them return the same value.
    pub fn get(&self) -> (r: LedState)
        ensures
            r == self.led,
    {
        self.led
    }
}

} // verus!

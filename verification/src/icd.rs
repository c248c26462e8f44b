//! Wire-level data model: requests coming in from the host, replies going
//! back, and the payload types of the individual operations.
//!
//! A request carries an operation identifier, a sequence number that
//! correlates the eventual reply, and a typed payload. The dispatcher owns a
//! request until it is routed, then moves it to the chosen handler.

use vstd::prelude::*;

verus! {

/// The two positions of the board's output pin.
#[derive(Clone, Copy, Debug, PartialEq, Eq, Structural)]
pub enum LedState {
    Off,
    On,
}

/// Payload of a sleep request: how long the deferred task should sleep.
#[derive(Clone, Copy, Debug, PartialEq, Eq, Structural)]
pub struct SleepMillis {
    pub millis: u16,
}

/// Payload of a sleep reply: how long the task measured itself sleeping.
#[derive(Clone, Copy, Debug, PartialEq, Eq, Structural)]
pub struct SleptMillis {
    pub millis: u16,
}

/// Operation identifiers of the handler catalog, fixed at startup.
pub const OP_UNIQUE_ID: u16 = 1;

pub const OP_PICOBOOT_RESET: u16 = 2;

pub const OP_SET_LED: u16 = 3;

pub const OP_GET_LED: u16 = 4;

pub const OP_SET_TEXT: u16 = 5;

pub const OP_SLEEP: u16 = 6;

/// The typed payload of a request, as the transport decoded it.
pub enum Payload {
    Empty,
    Led(LedState),
    Text(String),
    Sleep(SleepMillis),
}

/// One decoded request from the host.
pub struct Request {
    pub seq_no: u32,
    pub op_id: u16,
    pub payload: Payload,
}

/// An error surfaced to the host as a typed error reply; the server itself
/// continues unaffected.
#[derive(Clone, Copy, Debug, PartialEq, Eq, Structural)]
pub enum ClientError {
    /// The operation identifier matches no handler.
    NoSuchOperation,
    /// The payload does not have the shape the operation expects, or an
    /// argument is outside the range the device can hold.
    MalformedPayload,
    /// Every concurrency slot of the operation's pool is in flight.
    PoolExhausted,
}

/// The typed result carried by a reply.
#[derive(Clone, Copy, Debug, PartialEq, Eq, Structural)]
pub enum ReplyBody {
    UniqueId(u64),
    LedSet,
    Led(LedState),
    TextSet,
    Slept(SleptMillis),
    Error(ClientError),
}

/// One reply to the host, correlated to its request by the sequence number.
#[derive(Clone, Copy, Debug, PartialEq, Eq, Structural)]
pub struct Reply {
    pub seq_no: u32,
    pub body: ReplyBody,
}

} // verus!

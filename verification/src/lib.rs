//! Core of an on-device command server: request dispatch over a catalog of
//! immediate and deferred operations, a bounded pool gating concurrent
//! deferred tasks, and the shared state that keeps an e-ink status display
//! in sync with what handlers want shown.

pub mod device;
pub mod dispatch;
pub mod display;
pub mod handlers;
pub mod icd;
pub mod laws;
pub mod pool;
pub mod refresh;
pub mod tasks;
pub mod textbuf;

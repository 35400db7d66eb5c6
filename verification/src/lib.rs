//! A frame-serialising logger core for `defmt`.
//!
//! Many producers share one byte sink. Each log record is one frame: it is
//! opened by `acquire`, extended by `write` and closed by `release`, and at
//! most one frame is open at any time, so that the bytes of two frames never
//! interleave in the sink.
//!
//! The core never blocks and never panics. Where a producer would have to
//! wait for the frame in flight, `acquire` and `init` answer `None`; the
//! caller then waits for the next `release` and asks again. Whoever shares a
//! logger among threads keeps it behind a lock, waits on a condition
//! variable, and wakes all waiters after each release.
//!
//! - `sink`: the sink capability and the errors that are reported.
//! - `encoder`: what is taken for granted about `defmt::Encoder`.
//! - `session`: the observable state of a logger and its transitions.
//! - `logger`: the logger and its operations.
//! - `protocol`: the guarantees of the protocol, stated over runs of calls.

pub mod encoder;
pub mod logger;
pub mod protocol;
pub mod session;
pub mod sink;

pub use logger::{FrameToken, Logger};
pub use sink::{Error, IoError, Sink};

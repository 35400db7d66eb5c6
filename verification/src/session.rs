//! The frame session as a state machine over plain values.

use vstd::prelude::*;
use crate::encoder::{frame_ended, frame_started, payload_written};

verus! {

/// What can be observed of a logger.
pub struct LoggerView {
    /// Whether a sink is attached.
    pub attached: bool,
    /// Whether a frame is in flight.
    pub in_progress: bool,
    /// The memory of the encoder.
    pub encoder: Seq<u8>,
    /// Every byte handed to a sink so far, in order.
    pub handed: Seq<u8>,
    /// How many frames were granted so far.
    pub frames: nat,
    /// How many times a sink was asked to flush so far.
    pub flushes: nat,
}

impl LoggerView {
    /// The bytes handed so far once `bytes` were emitted: a logger without a
    /// sink drops them.
    pub open spec fn hand(self, bytes: Seq<u8>) -> Seq<u8> {
        if self.attached {
            self.handed + bytes
        } else {
            self.handed
        }
    }

    /// Whether frame number `token` is the frame in flight.
    pub open spec fn holds(self, token: nat) -> bool {
        self.in_progress && token == self.frames
    }

    /// The logger after a frame was granted and opened.
    pub open spec fn acquire(self) -> LoggerView {
        LoggerView {
            in_progress: true,
            encoder: frame_started(self.encoder).0,
            handed: self.hand(frame_started(self.encoder).1),
            frames: self.frames + 1,
            ..self
        }
    }

    /// The logger after `data` was added to the frame in flight.
    pub open spec fn write(self, data: Seq<u8>) -> LoggerView {
        LoggerView {
            encoder: payload_written(self.encoder, data).0,
            handed: self.hand(payload_written(self.encoder, data).1),
            ..self
        }
    }

    /// The logger after the frame in flight was closed.
    pub open spec fn release(self) -> LoggerView {
        LoggerView {
            in_progress: false,
            encoder: frame_ended(self.encoder).0,
            handed: self.hand(frame_ended(self.encoder).1),
            ..self
        }
    }

    /// The logger after a flush: a logger without a sink has nothing to ask.
    pub open spec fn flush(self) -> LoggerView {
        LoggerView { flushes: if self.attached { self.flushes + 1 } else { self.flushes }, ..self }
    }

    /// The logger after a sink was attached.
    pub open spec fn attach(self) -> LoggerView {
        LoggerView { attached: true, ..self }
    }
}

} // verus!

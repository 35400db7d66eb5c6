//! The logger: one encoder, one optional sink, one frame at a time.

use vstd::prelude::*;
use crate::encoder::{encoder_state, end_frame, frame_ended, frame_started, payload_written,
    start_frame, write_payload};
use crate::session::LoggerView;
use crate::sink::{surface, Error, IoError, Sink};

verus! {

/// The right to extend and to close the frame that one `acquire` opened.
///
/// A token is neither copied nor cloned, and `release` consumes it.
pub struct FrameToken {
    frame: Ghost<nat>,
    opened: Result<(), Error>,
}

impl FrameToken {
    /// The number of the frame that this token stands for.
    pub closed spec fn frame(&self) -> nat {
        self.frame@
    }

    /// How handing the frame's opening bytes to the sink ended.
    pub closed spec fn opening(&self) -> Result<(), Error> {
        self.opened
    }

    /// How handing the frame's opening bytes to the sink ended.
    pub fn opened(&self) -> (report: Result<(), Error>)
        ensures
            report == self.opening(),
    {
        self.opened
    }
}

/// The shared logger state: created without a sink and with no frame in
/// flight, and meant to live as long as the process.
///
/// The logger is a plain value. Producers that share it keep it behind a
/// lock, and hold that lock for the length of each call.
pub struct Logger<S: Sink> {
    sink: Option<S>,
    encoder: defmt::Encoder,
    in_progress: bool,
    /// Where the encoder's output is gathered on its way to the sink. It is
    /// kept between calls, so that logging allocates only while it grows.
    emitted: Vec<u8>,
    handed: Ghost<Seq<u8>>,
    frames: Ghost<nat>,
    flushes: Ghost<nat>,
}

impl<S: Sink> View for Logger<S> {
    type V = LoggerView;

    closed spec fn view(&self) -> LoggerView {
        LoggerView {
            attached: self.sink is Some,
            in_progress: self.in_progress,
            encoder: encoder_state(self.encoder),
            handed: self.handed@,
            frames: self.frames@,
            flushes: self.flushes@,
        }
    }
}

impl<S: Sink> Logger<S> {
    /// The sink that is attached, if any.
    pub closed spec fn attached_sink(&self) -> Option<S> {
        self.sink
    }

    /// Whether `token` stands for the frame in flight.
    pub open spec fn holds(&self, token: &FrameToken) -> bool {
        self@.holds(token.frame())
    }

    /// A sink is attached exactly when there is an attached sink.
    pub proof fn attached_is_some(&self)
        ensures
            self@.attached <==> self.attached_sink() is Some,
    {
    }

    /// A logger with no sink and no frame in flight, which has handed out
    /// nothing yet.
    pub fn new() -> (logger: Logger<S>)
        ensures
            logger.attached_sink() is None,
            !logger@.attached,
            !logger@.in_progress,
            logger@.handed == Seq::<u8>::empty(),
            logger@.frames == 0,
            logger@.flushes == 0,
    {
        Logger {
            sink: None,
            encoder: defmt::Encoder::new(),
            in_progress: false,
            emitted: Vec::new(),
            handed: Ghost(Seq::empty()),
            frames: Ghost(0),
            flushes: Ghost(0),
        }
    }

    /// Whether a frame is in flight. While it is, `acquire` and `init` answer
    /// `None`.
    pub fn in_progress(&self) -> (busy: bool)
        ensures
            busy == self@.in_progress,
    {
        self.in_progress
    }

    /// The sink that is attached, if any.
    pub fn sink(&self) -> (sink: Option<&S>)
        ensures
            match sink {
                Some(attached) => self.attached_sink() == Some(*attached),
                None => self.attached_sink() is None,
            },
            sink is Some <==> self@.attached,
    {
        self.sink.as_ref()
    }

    /// Hands the gathered bytes to the sink, if there is one and there is
    /// anything to hand over. A logger without a sink drops them.
    fn forward(&mut self) -> (report: Result<(), Error>)
        ensures
            final(self)@ == (LoggerView {
                handed: old(self)@.hand(old(self).emitted@),
                ..old(self)@
            }),
            !old(self)@.attached || old(self).emitted@.len() == 0 ==> report is Ok,
            report is Err ==> report == Err::<(), Error>(Error::IoFailure),
    {
        if self.emitted.len() == 0 {
            assert(self@.hand(self.emitted@) =~= self@.handed);
            return Ok(());
        }
        match &mut self.sink {
            Some(sink) => {
                let outcome = sink.write(self.emitted.as_slice());
                self.handed = Ghost(self.handed@ + self.emitted@);
                surface(outcome)
            },
            None => Ok(()),
        }
    }

    /// Opens a frame, unless one is in flight.
    ///
    /// `None` means that a frame is in flight and nothing was changed: the
    /// caller waits for its release and asks again. There is no timeout. A
    /// producer that asks again from within its own frame waits for itself,
    /// and so for ever: a frame is not re-entrant.
    ///
    /// Otherwise the frame is granted, whether or not the sink took the
    /// opening bytes: the token says how that went.
    pub fn acquire(&mut self) -> (granted: Option<FrameToken>)
        ensures
            match granted {
                Some(token) => {
                    &&& !old(self)@.in_progress
                    &&& final(self)@ == old(self)@.acquire()
                    &&& final(self).holds(&token)
                    &&& !old(self)@.attached || frame_started(old(self)@.encoder).1.len() == 0
                        ==> token.opening() is Ok
                    &&& token.opening() is Err ==> token.opening() == Err::<(), Error>(
                        Error::IoFailure,
                    )
                },
                None => old(self)@.in_progress && *final(self) == *old(self),
            },
    {
        if self.in_progress {
            return None;
        }
        self.in_progress = true;
        self.frames = Ghost(self.frames@ + 1);
        self.emitted.clear();
        start_frame(&mut self.encoder, &mut self.emitted);
        let opened = self.forward();
        Some(FrameToken { frame: Ghost(self.frames@), opened })
    }

    /// Adds `bytes` to the frame that `token` stands for.
    ///
    /// To write outside a frame is a breach of the caller's side of the
    /// protocol, which the precondition rules out. A failure of the sink is
    /// reported and not retried, and the frame stays in flight either way.
    pub fn write(&mut self, token: &FrameToken, bytes: &[u8]) -> (report: Result<(), Error>)
        requires
            old(self).holds(token),
        ensures
            final(self)@ == old(self)@.write(bytes@),
            final(self).holds(token),
            !old(self)@.attached || payload_written(old(self)@.encoder, bytes@).1.len() == 0
                ==> report is Ok,
            report is Err ==> report == Err::<(), Error>(Error::IoFailure),
    {
        self.emitted.clear();
        write_payload(&mut self.encoder, bytes, &mut self.emitted);
        self.forward()
    }

    /// Closes the frame that `token` stands for.
    ///
    /// The frame is over when this returns, whatever the sink answered: a
    /// failure to hand over the closing bytes is reported and not retried,
    /// and the next `acquire` is granted all the same. Whoever shares the
    /// logger among threads wakes all that wait for it after each release.
    pub fn release(&mut self, token: FrameToken) -> (report: Result<(), Error>)
        requires
            old(self).holds(&token),
        ensures
            final(self)@ == old(self)@.release(),
            !final(self)@.in_progress,
            !old(self)@.attached || frame_ended(old(self)@.encoder).1.len() == 0
                ==> report is Ok,
            report is Err ==> report == Err::<(), Error>(Error::IoFailure),
    {
        self.emitted.clear();
        end_frame(&mut self.encoder, &mut self.emitted);
        let report = self.forward();
        self.in_progress = false;
        report
    }

    /// Flushes the sink, if one is attached.
    ///
    /// Flushing neither waits for the frame in flight nor touches it.
    pub fn flush(&mut self) -> (report: Result<(), Error>)
        ensures
            final(self)@ == old(self)@.flush(),
            !old(self)@.attached ==> report is Ok,
            report is Err ==> report == Err::<(), Error>(Error::IoFailure),
    {
        match &mut self.sink {
            Some(sink) => {
                let outcome = sink.flush();
                self.flushes = Ghost(self.flushes@ + 1);
                surface(outcome)
            },
            None => Ok(()),
        }
    }

    /// Attaches the sink that the caller tried to open, unless a frame is in
    /// flight.
    ///
    /// `None` means that a frame is in flight and nothing was changed: the
    /// caller waits for its release and asks again, and does well to open
    /// the target only once `in_progress` says that no frame is in flight.
    /// Otherwise a target that was opened replaces the sink, and one that
    /// could not be opened is reported and leaves the sink as it was.
    pub fn init(&mut self, opened: Result<S, IoError>) -> (done: Option<Result<(), Error>>)
        ensures
            done == if old(self)@.in_progress {
                None::<Result<(), Error>>
            } else if opened is Ok {
                Some(Ok::<(), Error>(()))
            } else {
                Some(Err::<(), Error>(Error::SinkUnavailable))
            },
            final(self)@ == if !old(self)@.in_progress && opened is Ok {
                old(self)@.attach()
            } else {
                old(self)@
            },
            final(self).attached_sink() == if !old(self)@.in_progress && opened is Ok {
                Some(opened->Ok_0)
            } else {
                old(self).attached_sink()
            },
    {
        if self.in_progress {
            return None;
        }
        match opened {
            Ok(sink) => {
                self.sink = Some(sink);
                Some(Ok(()))
            },
            Err(_) => Some(Err(Error::SinkUnavailable)),
        }
    }
}

} // verus!

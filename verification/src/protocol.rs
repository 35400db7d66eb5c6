//! The protocol among the producers that share a logger, and what it
//! guarantees.
//!
//! A world is a logger together with the tokens that were granted and not yet
//! released. Producers act on it one call at a time, in any order; the only
//! discipline asked of them is the one that the logger's preconditions ask:
//! to extend and to close a frame with the token that stands for it.

use vstd::prelude::*;
use crate::encoder::{frame_ended, frame_started, payload_written};
use crate::session::LoggerView;

verus! {

/// One call on the shared logger.
pub enum Call {
    /// A producer asks for a frame.
    Acquire,
    /// The holder of `token` adds `data` to its frame.
    Write { token: nat, data: Seq<u8> },
    /// The holder of `token` closes its frame.
    Release { token: nat },
    /// Anyone flushes the sink.
    Flush,
    /// Anyone attaches a sink; `opened` says whether its target could be
    /// opened.
    Attach { opened: bool },
}

/// A logger and the tokens that are out.
pub struct World {
    /// The logger.
    pub logger: LoggerView,
    /// The tokens that were granted and not yet released.
    pub live: Set<nat>,
}

impl World {
    /// No token is out unless a frame is in flight, and then it is the token
    /// of that frame and no other.
    pub open spec fn exclusive(self) -> bool {
        self.live == if self.logger.in_progress {
            Set::<nat>::empty().insert(self.logger.frames)
        } else {
            Set::<nat>::empty()
        }
    }

    /// Whether `call` keeps to the caller's side of the protocol.
    pub open spec fn admits(self, call: Call) -> bool {
        match call {
            Call::Write { token, data } => self.logger.holds(token),
            Call::Release { token } => self.logger.holds(token),
            _ => true,
        }
    }

    /// The world after `call`. A producer that has to wait leaves the world
    /// as it is.
    pub open spec fn step(self, call: Call) -> World {
        match call {
            Call::Acquire => if self.logger.in_progress {
                self
            } else {
                World {
                    logger: self.logger.acquire(),
                    live: self.live.insert(self.logger.acquire().frames),
                }
            },
            Call::Write { token, data } => World { logger: self.logger.write(data), ..self },
            Call::Release { token } => World {
                logger: self.logger.release(),
                live: self.live.remove(token),
            },
            Call::Flush => World { logger: self.logger.flush(), ..self },
            Call::Attach { opened } => if !self.logger.in_progress && opened {
                World { logger: self.logger.attach(), ..self }
            } else {
                self
            },
        }
    }
}

/// The world after `calls`, in order.
pub open spec fn run(start: World, calls: Seq<Call>) -> World
    decreases calls.len(),
{
    if calls.len() == 0 {
        start
    } else {
        run(start, calls.drop_last()).step(calls.last())
    }
}

/// Whether each of `calls` keeps to the protocol in the world that it meets.
pub open spec fn lawful(start: World, calls: Seq<Call>) -> bool
    decreases calls.len(),
{
    calls.len() == 0 || (lawful(start, calls.drop_last()) && run(
        start,
        calls.drop_last(),
    ).admits(calls.last()))
}

/// The encoder's memory and the bytes it emits, once `chunks` were written to
/// an encoder with memory `memory`.
pub open spec fn payload(memory: Seq<u8>, chunks: Seq<Seq<u8>>) -> (Seq<u8>, Seq<u8>)
    decreases chunks.len(),
{
    if chunks.len() == 0 {
        (memory, Seq::empty())
    } else {
        let before = payload(memory, chunks.drop_last());
        let last = payload_written(before.0, chunks.last());
        (last.0, before.1 + last.1)
    }
}

/// A frame that was opened and given `chunks`, and is not closed yet.
pub open spec fn open_frame(memory: Seq<u8>, chunks: Seq<Seq<u8>>) -> (Seq<u8>, Seq<u8>) {
    let head = frame_started(memory);
    let body = payload(head.0, chunks);
    (body.0, head.1 + body.1)
}

/// A whole frame with the payload `chunks`.
pub open spec fn frame(memory: Seq<u8>, chunks: Seq<Seq<u8>>) -> (Seq<u8>, Seq<u8>) {
    let open = open_frame(memory, chunks);
    let tail = frame_ended(open.0);
    (tail.0, open.1 + tail.1)
}

/// One whole frame after the other, one for each of `sessions`.
pub open spec fn frames(memory: Seq<u8>, sessions: Seq<Seq<Seq<u8>>>) -> (Seq<u8>, Seq<u8>)
    decreases sessions.len(),
{
    if sessions.len() == 0 {
        (memory, Seq::empty())
    } else {
        let before = frames(memory, sessions.drop_last());
        let last = frame(before.0, sessions.last());
        (last.0, before.1 + last.1)
    }
}

/// What a sequence of calls asked to be logged.
pub struct Journal {
    /// The payloads of the frames that were closed, in the order of closing.
    pub closed: Seq<Seq<Seq<u8>>>,
    /// The payload given so far to the frame in flight.
    pub open: Seq<Seq<u8>>,
}

/// What `calls` asked to be logged.
pub open spec fn journal(calls: Seq<Call>) -> Journal
    decreases calls.len(),
{
    if calls.len() == 0 {
        Journal { closed: Seq::empty(), open: Seq::empty() }
    } else {
        let before = journal(calls.drop_last());
        match calls.last() {
            Call::Write { token, data } => Journal { open: before.open.push(data), ..before },
            Call::Release { token } => Journal {
                closed: before.closed.push(before.open),
                open: Seq::empty(),
            },
            _ => before,
        }
    }
}

/// A call that keeps to the protocol leaves an exclusive world exclusive.
proof fn step_keeps_exclusive(world: World, call: Call)
    requires
        world.exclusive(),
        world.admits(call),
    ensures
        world.step(call).exclusive(),
{
    if call is Release {
        assert(world.step(call).live =~= Set::<nat>::empty());
    }
}

/// The calls before any instant of a lawful run are a lawful run.
proof fn lawful_until(start: World, calls: Seq<Call>, instant: int)
    requires
        lawful(start, calls),
        0 <= instant <= calls.len(),
    ensures
        lawful(start, calls.take(instant)),
    decreases calls.len(),
{
    if instant < calls.len() {
        lawful_until(start, calls.drop_last(), instant);
        assert(calls.drop_last().take(instant) =~= calls.take(instant));
    } else {
        assert(calls.take(instant) =~= calls);
    }
}

/// A lawful run leaves an exclusive world exclusive.
proof fn run_keeps_exclusive(start: World, calls: Seq<Call>)
    requires
        start.exclusive(),
        lawful(start, calls),
    ensures
        run(start, calls).exclusive(),
    decreases calls.len(),
{
    if calls.len() > 0 {
        run_keeps_exclusive(start, calls.drop_last());
        step_keeps_exclusive(run(start, calls.drop_last()), calls.last());
    }
}

/// Mutual exclusion: at every instant of a lawful run at most one token is
/// out, and it is out exactly while a frame is in flight. So of any two
/// producers that asked for a frame, at most one is between its grant and
/// its release.
pub proof fn mutual_exclusion(start: World, calls: Seq<Call>, instant: int)
    requires
        start.exclusive(),
        lawful(start, calls),
        0 <= instant <= calls.len(),
    ensures
        run(start, calls.take(instant)).exclusive(),
        forall|a: nat, b: nat|
            run(start, calls.take(instant)).live.contains(a) && run(
                start,
                calls.take(instant),
            ).live.contains(b) ==> a == b,
        forall|a: nat|
            run(start, calls.take(instant)).live.contains(a) <==> run(
                start,
                calls.take(instant),
            ).logger.holds(a),
{
    lawful_until(start, calls, instant);
    run_keeps_exclusive(start, calls.take(instant));
}

/// Handing over: a release leaves no frame in flight and no token out, and
/// the producer that asks next is granted the next frame.
pub proof fn release_hands_over(world: World, token: nat)
    requires
        world.exclusive(),
        world.logger.holds(token),
    ensures
        !world.step(Call::Release { token }).logger.in_progress,
        world.step(Call::Release { token }).live == Set::<nat>::empty(),
        world.step(Call::Release { token }).step(Call::Acquire).logger.holds(token + 1),
        world.step(Call::Release { token }).step(Call::Acquire).live == Set::<nat>::empty().insert(
            token + 1,
        ),
{
    let released = world.step(Call::Release { token });
    step_keeps_exclusive(world, Call::Release { token });
    step_keeps_exclusive(released, Call::Acquire);
}

/// No deadlock: in every exclusive world some producer can go on. While a
/// frame is in flight, the token of that frame is out and its holder may
/// write and release; while none is, whoever asks first is granted a frame.
pub proof fn someone_can_go_on(world: World)
    requires
        world.exclusive(),
    ensures
        world.logger.in_progress ==> {
            &&& world.live.contains(world.logger.frames)
            &&& world.admits(Call::Release { token: world.logger.frames })
            &&& forall|data: Seq<u8>| #[trigger]
                world.admits(Call::Write { token: world.logger.frames, data })
        },
        !world.logger.in_progress ==> {
            &&& world.step(Call::Acquire).logger.in_progress
            &&& world.step(Call::Acquire).live.contains(world.logger.frames + 1)
        },
{
}

/// What a lawful run from a world at rest, with a sink attached, has handed
/// to the sink and left in the encoder, in terms of what its calls asked to
/// be logged.
pub open spec fn serial(start: World, calls: Seq<Call>) -> bool {
    let end = run(start, calls).logger;
    let asked = journal(calls);
    let closed = frames(start.logger.encoder, asked.closed);
    let open = open_frame(closed.0, asked.open);
    &&& end.attached
    &&& end.in_progress ==> {
        &&& end.handed == start.logger.handed + closed.1 + open.1
        &&& end.encoder == open.0
        &&& end.frames == start.logger.frames + asked.closed.len() + 1
    }
    &&& !end.in_progress ==> {
        &&& end.handed == start.logger.handed + closed.1
        &&& end.encoder == closed.0
        &&& end.frames == start.logger.frames + asked.closed.len()
        &&& asked.open == Seq::<Seq<u8>>::empty()
    }
}

/// Frames do not interleave: however the calls of the producers fall in
/// time, what a lawful run hands to the sink is one whole frame after the
/// other, one for each release and in the order of the releases, followed by
/// the opened part of the frame in flight, if there is one. Each frame holds
/// the payload that its own producer wrote, in the order of its writes.
pub proof fn frames_do_not_interleave(start: World, calls: Seq<Call>)
    requires
        start.logger.attached,
        !start.logger.in_progress,
        lawful(start, calls),
    ensures
        serial(start, calls),
    decreases calls.len(),
{
    if calls.len() > 0 {
        let earlier = calls.drop_last();
        frames_do_not_interleave(start, earlier);
        let asked = journal(earlier);
        let closed = frames(start.logger.encoder, asked.closed);
        let end = run(start, calls).logger;
        match calls.last() {
            Call::Write { token, data } => {
                let longer = asked.open.push(data);
                assert(longer.drop_last() =~= asked.open);
                assert(end.handed =~= start.logger.handed + closed.1 + open_frame(
                    closed.0,
                    longer,
                ).1);
            },
            Call::Release { token } => {
                let more = asked.closed.push(asked.open);
                assert(more.drop_last() =~= asked.closed);
                assert(end.handed =~= start.logger.handed + frames(start.logger.encoder, more).1);
            },
            _ => {},
        }
    }
}

/// Without a sink nothing is handed out: a lawful run that attaches no sink
/// to a logger that has none leaves it without one, and hands nothing to
/// anyone.
pub proof fn silent_without_sink(start: World, calls: Seq<Call>)
    requires
        !start.logger.attached,
        forall|i: int| 0 <= i < calls.len() ==> !(#[trigger] calls[i] is Attach),
    ensures
        !run(start, calls).logger.attached,
        run(start, calls).logger.handed == start.logger.handed,
    decreases calls.len(),
{
    if calls.len() > 0 {
        silent_without_sink(start, calls.drop_last());
    }
}

/// The run of `first` and then `second` is the run of `second` in the world
/// that `first` leaves.
proof fn run_in_two(start: World, first: Seq<Call>, second: Seq<Call>)
    ensures
        run(start, first + second) == run(run(start, first), second),
    decreases second.len(),
{
    if second.len() > 0 {
        run_in_two(start, first, second.drop_last());
        assert((first + second).drop_last() =~= first + second.drop_last());
    }
}

/// Whether two worlds are the same but for the count of flushes.
pub open spec fn alike(one: World, other: World) -> bool {
    one.live == other.live && one.logger == (LoggerView {
        flushes: one.logger.flushes,
        ..other.logger
    })
}

/// The same calls lead from worlds that are alike to worlds that are alike,
/// and ask for as many flushes.
proof fn run_alike(one: World, other: World, calls: Seq<Call>)
    requires
        alike(one, other),
    ensures
        alike(run(one, calls), run(other, calls)),
        run(one, calls).logger.flushes - one.logger.flushes == run(other, calls).logger.flushes
            - other.logger.flushes,
    decreases calls.len(),
{
    if calls.len() > 0 {
        run_alike(one, other, calls.drop_last());
    }
}

/// A flush is independent of the frames: put at any instant of a run, it
/// changes nothing of the world that the run leaves but the count of
/// flushes. Neither the frame in flight nor the bytes that are handed out
/// after it are touched.
pub proof fn flush_changes_nothing(start: World, first: Seq<Call>, second: Seq<Call>)
    ensures
        alike(run(start, first + seq![Call::Flush] + second), run(start, first + second)),
        run(start, first + seq![Call::Flush] + second).logger.flushes == run(
            start,
            first + second,
        ).logger.flushes + if run(start, first).logger.attached {
            1nat
        } else {
            0nat
        },
{
    let flushed = first + seq![Call::Flush];
    assert(flushed.drop_last() =~= first);
    run_in_two(start, flushed, second);
    run_in_two(start, first, second);
    run_alike(run(start, flushed), run(start, first), second);
}

} // verus!

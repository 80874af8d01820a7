use vstd::prelude::*;

use crate::error::{recoverable, PipelineError};

verus! {

/// Where the stream loop is in its life.
#[derive(Debug, Clone, Copy, PartialEq, Eq, Structural)]
pub enum StreamPhase {
    Idle,
    Negotiating,
    Running,
    Stopping,
    Stopped,
}

/// What to do with the frame of the current iteration.
#[derive(Debug, Clone, Copy, PartialEq, Eq, Structural)]
pub enum FrameDecision {
    /// Copy the encoded frame into the output slot.
    Write,
    /// Drop the frame and go on with the next one.
    Drop,
    /// End the stream: the error cannot be recovered from.
    Fail,
}

/// What to do after an iteration.
#[derive(Debug, Clone, Copy, PartialEq, Eq, Structural)]
pub enum LoopControl {
    /// Idle this many milliseconds, then run the next iteration.
    Continue(u64),
    /// Release the device streams.
    Stop,
}

/// The state of the loop: its phase, whether a quit was asked for, the
/// iterations run, the frames dropped, when the next iteration is due, and
/// the period the loop is capped to, if any.
pub struct StreamView {
    pub phase: StreamPhase,
    pub quit_requested: bool,
    pub cycles: u64,
    pub dropped: u64,
    pub last_ms: u64,
    pub period_ms: Option<u64>,
}

/// `a + b`, held at the largest `u64`.
pub open spec fn sat_add(a: u64, b: u64) -> u64 {
    if a as nat + b as nat > u64::MAX as nat {
        u64::MAX
    } else {
        (a + b) as u64
    }
}

/// How long to idle so that an iteration lasts at least `period_ms`, when the
/// previous one was due at `last_ms` and this one ends at `now_ms`; zero when
/// behind schedule or uncapped.
pub open spec fn idle_spec(period_ms: Option<u64>, last_ms: u64, now_ms: u64) -> u64 {
    match period_ms {
        None => 0,
        Some(p) => {
            let elapsed: int = if now_ms >= last_ms {
                now_ms - last_ms
            } else {
                0
            };
            if elapsed < p {
                (p - elapsed) as u64
            } else {
                0
            }
        },
    }
}

impl StreamView {
    pub open spec fn initial(period_ms: Option<u64>, now_ms: u64) -> StreamView {
        StreamView {
            phase: StreamPhase::Idle,
            quit_requested: false,
            cycles: 0,
            dropped: 0,
            last_ms: now_ms,
            period_ms,
        }
    }

    pub open spec fn after_negotiation_start(self) -> StreamView {
        StreamView { phase: StreamPhase::Negotiating, ..self }
    }

    /// Negotiation ended: run where it succeeded, else stop at once.
    pub open spec fn after_negotiation(self, ok: bool) -> StreamView {
        StreamView {
            phase: if ok {
                StreamPhase::Running
            } else {
                StreamPhase::Stopped
            },
            ..self
        }
    }

    /// A quit was asked for; it takes effect at the end of the iteration.
    pub open spec fn after_quit(self) -> StreamView {
        StreamView { quit_requested: true, ..self }
    }

    /// The decision on the frame of this iteration, given how it went.
    pub open spec fn frame_decision(outcome: Result<(), PipelineError>) -> FrameDecision {
        match outcome {
            Ok(()) => FrameDecision::Write,
            Err(e) => if recoverable(e) {
                FrameDecision::Drop
            } else {
                FrameDecision::Fail
            },
        }
    }

    pub open spec fn after_frame(self, outcome: Result<(), PipelineError>) -> StreamView {
        match StreamView::frame_decision(outcome) {
            FrameDecision::Write => self,
            FrameDecision::Drop => StreamView { dropped: sat_add(self.dropped, 1), ..self },
            FrameDecision::Fail => StreamView { phase: StreamPhase::Stopping, ..self },
        }
    }

    /// The iteration ended at `now_ms`: stop if a quit was asked for, else
    /// pace the next one.
    pub open spec fn after_iteration(self, now_ms: u64) -> (StreamView, LoopControl) {
        let cycles = sat_add(self.cycles, 1);
        if self.quit_requested {
            (StreamView { phase: StreamPhase::Stopping, cycles, ..self }, LoopControl::Stop)
        } else {
            let idle = idle_spec(self.period_ms, self.last_ms, now_ms);
            (
                StreamView { cycles, last_ms: sat_add(now_ms, idle), ..self },
                LoopControl::Continue(idle),
            )
        }
    }

    pub open spec fn after_release(self) -> StreamView {
        StreamView { phase: StreamPhase::Stopped, ..self }
    }
}

/// A quit asked for in the middle of an iteration, however long the
/// iteration then takes, neither cuts its frame short nor lets another
/// iteration start: the frame gets the same decision as without the quit, and
/// the loop stops once the iteration ends.
pub proof fn lemma_quit_mid_iteration(
    s: StreamView,
    outcome: Result<(), PipelineError>,
    now_ms: u64,
)
    requires
        s.phase == StreamPhase::Running,
    ensures
        s.after_quit().after_frame(outcome) == s.after_frame(outcome).after_quit(),
        s.after_quit().after_frame(outcome).quit_requested,
        s.after_quit().after_frame(outcome).after_iteration(now_ms).1 == LoopControl::Stop,
        s.after_quit().after_frame(outcome).after_iteration(now_ms).0.phase == StreamPhase::Stopping,
        s.after_quit().after_frame(outcome).after_iteration(now_ms).0.after_release().phase
            == StreamPhase::Stopped,
{
}

/// Drives the read, decode, filter, encode and write cycle: the decisions,
/// the pacing and the shutdown; the caller performs the device and GPU work.
pub struct StreamLoop {
    phase: StreamPhase,
    quit_requested: bool,
    cycles: u64,
    dropped: u64,
    last_ms: u64,
    period_ms: Option<u64>,
}

impl View for StreamLoop {
    type V = StreamView;

    closed spec fn view(&self) -> StreamView {
        StreamView {
            phase: self.phase,
            quit_requested: self.quit_requested,
            cycles: self.cycles,
            dropped: self.dropped,
            last_ms: self.last_ms,
            period_ms: self.period_ms,
        }
    }
}

fn saturating_inc(a: u64) -> (r: u64)
    ensures
        r == sat_add(a, 1),
{
    if a < u64::MAX {
        a + 1
    } else {
        a
    }
}

/// How long to idle before the next iteration; see `idle_spec`.
pub fn pacing_idle_ms(period_ms: Option<u64>, last_ms: u64, now_ms: u64) -> (r: u64)
    ensures
        r == idle_spec(period_ms, last_ms, now_ms),
{
    match period_ms {
        None => 0,
        Some(p) => {
            let elapsed = if now_ms >= last_ms {
                now_ms - last_ms
            } else {
                0
            };
            if elapsed < p {
                p - elapsed
            } else {
                0
            }
        },
    }
}

impl StreamLoop {
    /// An idle loop, capped to `period_ms` per iteration if given, with its
    /// clock started at `now_ms`.
    pub fn new(period_ms: Option<u64>, now_ms: u64) -> (r: StreamLoop)
        ensures
            r@ == StreamView::initial(period_ms, now_ms),
    {
        StreamLoop {
            phase: StreamPhase::Idle,
            quit_requested: false,
            cycles: 0,
            dropped: 0,
            last_ms: now_ms,
            period_ms,
        }
    }

    pub fn phase(&self) -> (r: StreamPhase)
        ensures
            r == self@.phase,
    {
        self.phase
    }

    /// Iterations run so far.
    pub fn cycles(&self) -> (r: u64)
        ensures
            r == self@.cycles,
    {
        self.cycles
    }

    /// Frames dropped so far.
    pub fn dropped(&self) -> (r: u64)
        ensures
            r == self@.dropped,
    {
        self.dropped
    }

    pub fn begin_negotiation(&mut self)
        requires
            old(self)@.phase == StreamPhase::Idle,
        ensures
            final(self)@ == old(self)@.after_negotiation_start(),
    {
        self.phase = StreamPhase::Negotiating;
    }

    /// Records how negotiation ended: the loop runs, or stops where it failed.
    pub fn negotiated(&mut self, ok: bool)
        requires
            old(self)@.phase == StreamPhase::Negotiating,
        ensures
            final(self)@ == old(self)@.after_negotiation(ok),
    {
        self.phase = if ok {
            StreamPhase::Running
        } else {
            StreamPhase::Stopped
        };
    }

    /// Records a quit request; it is honoured at the end of the iteration.
    pub fn request_quit(&mut self)
        ensures
            final(self)@ == old(self)@.after_quit(),
    {
        self.quit_requested = true;
    }

    /// Decides on the frame of this iteration from how decoding, filtering
    /// and encoding went: write it, drop it on a per-frame error, or end the
    /// stream on any other error.
    pub fn on_frame(&mut self, outcome: &Result<(), PipelineError>) -> (r: FrameDecision)
        requires
            old(self)@.phase == StreamPhase::Running,
        ensures
            r == StreamView::frame_decision(*outcome),
            final(self)@ == old(self)@.after_frame(*outcome),
    {
        match outcome {
            Ok(()) => FrameDecision::Write,
            Err(e) => if e.is_recoverable() {
                self.dropped = saturating_inc(self.dropped);
                FrameDecision::Drop
            } else {
                self.phase = StreamPhase::Stopping;
                FrameDecision::Fail
            },
        }
    }

    /// Ends an iteration at clock reading `now_ms`.
    pub fn end_iteration(&mut self, now_ms: u64) -> (r: LoopControl)
        requires
            old(self)@.phase == StreamPhase::Running,
        ensures
            (final(self)@, r) == old(self)@.after_iteration(now_ms),
    {
        self.cycles = saturating_inc(self.cycles);
        if self.quit_requested {
            self.phase = StreamPhase::Stopping;
            LoopControl::Stop
        } else {
            let idle = pacing_idle_ms(self.period_ms, self.last_ms, now_ms);
            self.last_ms = if now_ms <= u64::MAX - idle {
                now_ms + idle
            } else {
                u64::MAX
            };
            LoopControl::Continue(idle)
        }
    }

    /// Records that the device streams were released.
    pub fn streams_released(&mut self)
        requires
            old(self)@.phase == StreamPhase::Stopping,
        ensures
            final(self)@ == old(self)@.after_release(),
    {
        self.phase = StreamPhase::Stopped;
    }
}

/// Copies an encoded frame into the start of an output slot and gives the
/// number of bytes used. All or nothing: where the frame does not fit the
/// slot, or its length does not fit the device's byte count, the slot is left
/// as it was and the write fails with `DeviceIOError`.
pub fn write_output(slot: &mut [u8], encoded: &[u8]) -> (r: Result<u32, PipelineError>)
    ensures
        encoded@.len() <= old(slot)@.len() && encoded@.len() <= u32::MAX ==> r == Ok::<
            u32,
            PipelineError,
        >(encoded@.len() as u32) && final(slot)@ == encoded@ + old(slot)@.skip(
            encoded@.len() as int,
        ),
        !(encoded@.len() <= old(slot)@.len() && encoded@.len() <= u32::MAX) ==> r == Err::<
            u32,
            PipelineError,
        >(PipelineError::DeviceIOError) && final(slot)@ == old(slot)@,
{
    let n = encoded.len();
    if n > slot.len() || n > u32::MAX as usize {
        return Err(PipelineError::DeviceIOError);
    }
    let mut i: usize = 0;
    while i < n
        invariant
            i <= n,
            n == encoded@.len(),
            n <= old(slot)@.len(),
            slot@.len() == old(slot)@.len(),
            forall|k: int| 0 <= k < i ==> slot@[k] == encoded@[k],
            forall|k: int| i <= k < slot@.len() ==> slot@[k] == old(slot)@[k],
        decreases n - i,
    {
        slot[i] = encoded[i];
        i = i + 1;
    }
    proof {
        assert(slot@ =~= encoded@ + old(slot)@.skip(n as int));
    }
    Ok(n as u32)
}

} // verus!

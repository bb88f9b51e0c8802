use vstd::prelude::*;

use crate::models::Frame;

verus! {

/// Milliseconds of the short pause that ends every capture cycle.
pub const SETTLE_MILLIS: u64 = 1;

/// Milliseconds to wait before sending again to a full channel.
pub const BACKOFF_MILLIS: u64 = 50;

/// Milliseconds of each slice of the interruptible wait between cycles.
pub const TICK_MILLIS: u64 = 100;

/// Where the capture loop stands between two steps.
#[derive(Debug, Clone, Copy, PartialEq, Eq)]
pub enum LoopPhase {
    /// About to begin a capture cycle.
    Ready,
    /// A capture of the screen (with its encoding) has been asked for.
    Capturing,
    /// A frame is ready and a non-blocking send has been asked for.
    Sending,
    /// The channel was full: pausing before sending the same frame again.
    BackingOff,
    /// The short pause after a cycle.
    Settling,
    /// Waiting out the capture interval, which began at `since_ms`.
    Waiting { since_ms: u64 },
    /// The loop has ended.
    Stopped,
}

/// What the driver of the loop reports after carrying out the last action.
#[derive(Debug, Clone, Copy, PartialEq, Eq)]
pub enum LoopEvent {
    /// The loop is being started.
    Start,
    /// The screen was captured and encoded into a frame.
    FrameReady,
    /// Capturing or encoding failed (the driver reports the error itself).
    CaptureFailed,
    /// The frame was handed to the channel.
    Sent,
    /// The channel had no room for the frame.
    ChannelFull,
    /// The receiving end of the channel is gone.
    ChannelClosed,
    /// The requested sleep is over.
    Slept,
}

/// What the driver must do next.
#[derive(Debug, Clone, Copy, PartialEq, Eq)]
pub enum LoopAction {
    /// Capture the primary screen and encode it into a frame.
    CaptureFrame,
    /// Try, without blocking, to send the pending frame.
    TrySend,
    /// Sleep for the given number of milliseconds.
    Sleep { millis: u64 },
    /// Leave the loop.
    Exit,
}

/// Whether `event` is a report that can follow the action taken in `phase`.
pub open spec fn expects(phase: LoopPhase, event: LoopEvent) -> bool {
    match phase {
        LoopPhase::Ready => event is Start,
        LoopPhase::Capturing => event is FrameReady || event is CaptureFailed,
        LoopPhase::Sending => event is Sent || event is ChannelFull || event is ChannelClosed,
        LoopPhase::BackingOff => event is Slept,
        LoopPhase::Settling => event is Slept,
        LoopPhase::Waiting { .. } => event is Slept,
        LoopPhase::Stopped => true,
    }
}

/// The top of a cycle: stop if asked to, else capture.
pub open spec fn begin_cycle(shutdown: bool) -> (LoopPhase, LoopAction) {
    if shutdown {
        (LoopPhase::Stopped, LoopAction::Exit)
    } else {
        (LoopPhase::Capturing, LoopAction::CaptureFrame)
    }
}

/// Before every send attempt: stop if asked to, else send.
pub open spec fn begin_send(shutdown: bool) -> (LoopPhase, LoopAction) {
    if shutdown {
        (LoopPhase::Stopped, LoopAction::Exit)
    } else {
        (LoopPhase::Sending, LoopAction::TrySend)
    }
}

/// Whether fewer than `interval_seconds` have passed between `since_ms` and `now_ms`.
pub open spec fn still_waiting(interval_seconds: u64, since_ms: u64, now_ms: u64) -> bool {
    (if now_ms >= since_ms { now_ms - since_ms } else { 0 }) < interval_seconds * 1000
}

/// The interruptible wait: sleep another tick while the interval runs, else start a cycle.
pub open spec fn continue_wait(interval_seconds: u64, since_ms: u64, now_ms: u64, shutdown: bool) -> (
    LoopPhase,
    LoopAction,
) {
    if still_waiting(interval_seconds, since_ms, now_ms) {
        if shutdown {
            (LoopPhase::Stopped, LoopAction::Exit)
        } else {
            (LoopPhase::Waiting { since_ms }, LoopAction::Sleep { millis: TICK_MILLIS })
        }
    } else {
        begin_cycle(shutdown)
    }
}

/// One step of the capture loop: the next phase and action for a report, the current
/// shutdown flag and the current reading (in milliseconds) of a monotonic clock.
pub open spec fn next_step(
    interval_seconds: u64,
    phase: LoopPhase,
    event: LoopEvent,
    shutdown: bool,
    now_ms: u64,
) -> (LoopPhase, LoopAction) {
    match phase {
        LoopPhase::Ready => begin_cycle(shutdown),
        LoopPhase::Capturing => match event {
            LoopEvent::FrameReady => begin_send(shutdown),
            _ => (LoopPhase::Settling, LoopAction::Sleep { millis: SETTLE_MILLIS }),
        },
        LoopPhase::Sending => match event {
            LoopEvent::Sent => (LoopPhase::Settling, LoopAction::Sleep { millis: SETTLE_MILLIS }),
            LoopEvent::ChannelFull => (
                LoopPhase::BackingOff,
                LoopAction::Sleep { millis: BACKOFF_MILLIS },
            ),
            _ => (LoopPhase::Stopped, LoopAction::Exit),
        },
        LoopPhase::BackingOff => begin_send(shutdown),
        LoopPhase::Settling => continue_wait(interval_seconds, now_ms, now_ms, shutdown),
        LoopPhase::Waiting { since_ms } => continue_wait(interval_seconds, since_ms, now_ms, shutdown),
        LoopPhase::Stopped => (LoopPhase::Stopped, LoopAction::Exit),
    }
}

/// The decisions of the screen capture thread.
///
/// The thread captures the screen, hands each frame to a bounded channel (retrying
/// while it is full), then waits out the capture interval in short slices, checking
/// the shutdown flag before every capture, every send attempt and every slice.
///
/// The loop also keeps the frame waiting to be sent: the driver hands it a captured
/// frame with `hold` and takes it back with `take_frame` once the channel has room.
pub struct CaptureLoop {
    /// Seconds between consecutive captures.
    pub interval_seconds: u64,
    /// Where the loop stands.
    pub phase: LoopPhase,
    /// The captured frame waiting to be sent, if any.
    pub pending: Option<Frame>,
    /// The frames handed to the loop so far, in capture order.
    pub captured: Ghost<Seq<Frame>>,
    /// The frames taken out for sending so far, in order.
    pub delivered: Ghost<Seq<Frame>>,
}

impl CaptureLoop {
    /// The loop's bookkeeping: every captured frame has been taken out for sending,
    /// in order, except the last one while it waits (or, once the loop has stopped,
    /// because shutdown or a closed channel cut its send short); a frame waits only
    /// while it is being captured, sent or backed off.
    pub open spec fn wf(self) -> bool {
        &&& match self.pending {
            Some(f) => {
                &&& self.captured@.len() > 0
                &&& f == self.captured@.last()
                &&& self.delivered@ == self.captured@.drop_last()
            },
            None => self.delivered@ == self.captured@ || (self.phase is Stopped
                && self.captured@.len() > 0 && self.delivered@ == self.captured@.drop_last()),
        }
        &&& (self.phase is Ready || self.phase is Settling || self.phase is Waiting
            || self.phase is Stopped) ==> self.pending is None
        &&& self.phase is BackingOff ==> self.pending is Some
    }

    /// Whether `event` is a report the driver can make now: one that answers the last
    /// action, with a captured frame held (`hold`) exactly when one is reported ready,
    /// and taken out (`take_frame`) exactly when one is reported sent.
    pub open spec fn can_report(self, event: LoopEvent) -> bool {
        &&& expects(self.phase, event)
        &&& match event {
            LoopEvent::FrameReady => self.pending is Some,
            LoopEvent::CaptureFailed => self.pending is None,
            LoopEvent::Sent => self.pending is None,
            LoopEvent::ChannelFull => self.pending is Some,
            LoopEvent::ChannelClosed => self.pending is Some,
            _ => true,
        }
    }

    /// A loop that has not started yet.
    pub fn new(interval_seconds: u64) -> (l: Self)
        ensures
            l.interval_seconds == interval_seconds,
            l.phase == LoopPhase::Ready,
            l.wf(),
            l.captured@ == Seq::<Frame>::empty(),
            l.delivered@ == Seq::<Frame>::empty(),
    {
        CaptureLoop {
            interval_seconds,
            phase: LoopPhase::Ready,
            pending: None,
            captured: Ghost(Seq::empty()),
            delivered: Ghost(Seq::empty()),
        }
    }

    fn begin_cycle(&mut self, shutdown: bool) -> (a: LoopAction)
        ensures
            (final(self).phase, a) == begin_cycle(shutdown),
            final(self).interval_seconds == old(self).interval_seconds,
            final(self).pending == old(self).pending,
            final(self).captured == old(self).captured,
            final(self).delivered == old(self).delivered,
    {
        if shutdown {
            self.phase = LoopPhase::Stopped;
            LoopAction::Exit
        } else {
            self.phase = LoopPhase::Capturing;
            LoopAction::CaptureFrame
        }
    }

    fn begin_send(&mut self, shutdown: bool) -> (a: LoopAction)
        ensures
            (final(self).phase, a) == begin_send(shutdown),
            final(self).interval_seconds == old(self).interval_seconds,
            final(self).pending == old(self).pending,
            final(self).captured == old(self).captured,
            final(self).delivered == old(self).delivered,
    {
        if shutdown {
            self.phase = LoopPhase::Stopped;
            LoopAction::Exit
        } else {
            self.phase = LoopPhase::Sending;
            LoopAction::TrySend
        }
    }

    fn continue_wait(&mut self, since_ms: u64, now_ms: u64, shutdown: bool) -> (a: LoopAction)
        ensures
            (final(self).phase, a) == continue_wait(
                old(self).interval_seconds,
                since_ms,
                now_ms,
                shutdown,
            ),
            final(self).interval_seconds == old(self).interval_seconds,
            final(self).pending == old(self).pending,
            final(self).captured == old(self).captured,
            final(self).delivered == old(self).delivered,
    {
        let elapsed: u64 = if now_ms >= since_ms {
            now_ms - since_ms
        } else {
            0
        };
        let interval_ms: u128 = (self.interval_seconds as u128) * 1000;
        if (elapsed as u128) < interval_ms {
            if shutdown {
                self.phase = LoopPhase::Stopped;
                LoopAction::Exit
            } else {
                self.phase = LoopPhase::Waiting { since_ms };
                LoopAction::Sleep { millis: TICK_MILLIS }
            }
        } else {
            self.begin_cycle(shutdown)
        }
    }

    /// Advances the loop on `event`, given the shutdown flag as it reads now and the
    /// current reading in milliseconds of a monotonic clock, and returns the next action.
    /// A frame still waiting when the loop stops is dropped.
    pub fn step(&mut self, event: LoopEvent, shutdown: bool, now_ms: u64) -> (a: LoopAction)
        requires
            old(self).wf(),
            old(self).can_report(event),
        ensures
            (final(self).phase, a) == next_step(
                old(self).interval_seconds,
                old(self).phase,
                event,
                shutdown,
                now_ms,
            ),
            final(self).interval_seconds == old(self).interval_seconds,
            final(self).wf(),
            // Steps neither capture nor send frames: the frame records stay as they are.
            final(self).captured@ == old(self).captured@,
            final(self).delivered@ == old(self).delivered@,
            // A waiting frame stays the same frame until it is sent or the loop stops.
            !(final(self).phase is Stopped) ==> final(self).pending == old(self).pending,
            final(self).phase is Stopped ==> final(self).pending is None,
            // No new capture is asked for while a frame waits to be sent.
            a is CaptureFrame ==> final(self).pending is None && final(self).delivered@
                == final(self).captured@,
            // Once shutdown is asked for, no capture and no send is started.
            shutdown ==> !(a is CaptureFrame) && !(a is TrySend),
            // A loop that has ended stays ended.
            old(self).phase is Stopped ==> a is Exit && final(self).phase is Stopped,
            // A failed capture never ends the loop.
            old(self).phase is Capturing && event is CaptureFailed ==> a == (LoopAction::Sleep {
                millis: SETTLE_MILLIS,
            }),
            // A frame refused by a full channel is sent again after the back-off.
            old(self).phase is BackingOff && !shutdown ==> a is TrySend,
            // A closed channel ends the loop.
            old(self).phase is Sending && event is ChannelClosed ==> a is Exit,
            // Exiting and being stopped go together.
            a is Exit <==> final(self).phase is Stopped,
    {
        let a = match self.phase {
            LoopPhase::Ready => self.begin_cycle(shutdown),
            LoopPhase::Capturing => {
                match event {
                    LoopEvent::FrameReady => self.begin_send(shutdown),
                    _ => {
                        self.phase = LoopPhase::Settling;
                        LoopAction::Sleep { millis: SETTLE_MILLIS }
                    },
                }
            },
            LoopPhase::Sending => {
                match event {
                    LoopEvent::Sent => {
                        self.phase = LoopPhase::Settling;
                        LoopAction::Sleep { millis: SETTLE_MILLIS }
                    },
                    LoopEvent::ChannelFull => {
                        self.phase = LoopPhase::BackingOff;
                        LoopAction::Sleep { millis: BACKOFF_MILLIS }
                    },
                    _ => {
                        self.phase = LoopPhase::Stopped;
                        LoopAction::Exit
                    },
                }
            },
            LoopPhase::BackingOff => self.begin_send(shutdown),
            LoopPhase::Settling => self.continue_wait(now_ms, now_ms, shutdown),
            LoopPhase::Waiting { since_ms } => self.continue_wait(since_ms, now_ms, shutdown),
            LoopPhase::Stopped => LoopAction::Exit,
        };
        if let LoopPhase::Stopped = self.phase {
            self.pending = None;
        }
        a
    }

    /// Hands the loop the frame just captured, to be sent next.
    pub fn hold(&mut self, frame: Frame)
        requires
            old(self).wf(),
            old(self).phase is Capturing,
            old(self).pending is None,
        ensures
            final(self).wf(),
            final(self).pending == Some(frame),
            final(self).captured@ == old(self).captured@.push(frame),
            final(self).delivered@ == old(self).delivered@,
            final(self).phase == old(self).phase,
            final(self).interval_seconds == old(self).interval_seconds,
    {
        proof {
            assert(old(self).captured@.push(frame).drop_last() =~= old(self).captured@);
        }
        self.pending = Some(frame);
        self.captured = Ghost(self.captured@.push(frame));
    }

    /// Takes out the waiting frame, once the channel has room for it.
    pub fn take_frame(&mut self) -> (f: Frame)
        requires
            old(self).wf(),
            old(self).phase is Sending,
            old(self).pending is Some,
        ensures
            final(self).wf(),
            Some(f) == old(self).pending,
            f == old(self).captured@.last(),
            final(self).pending is None,
            final(self).delivered@ == old(self).delivered@.push(f),
            final(self).delivered@ == final(self).captured@,
            final(self).captured@ == old(self).captured@,
            final(self).phase == old(self).phase,
            final(self).interval_seconds == old(self).interval_seconds,
    {
        let f = self.pending.take().unwrap();
        proof {
            assert(old(self).captured@.drop_last().push(f) =~= old(self).captured@);
        }
        self.delivered = Ghost(self.delivered@.push(f));
        f
    }
}

/// Frames leave the capture loop in the order they were captured, each at most once,
/// and none is lost but the last, only while it waits to be sent or when the loop
/// has stopped during its send.
pub proof fn lemma_frames_leave_in_order(l: CaptureLoop)
    requires
        l.wf(),
    ensures
        l.delivered@.is_prefix_of(l.captured@),
        l.captured@.len() <= l.delivered@.len() + 1,
        l.captured@.len() == l.delivered@.len() + 1 ==> l.pending is Some || l.phase is Stopped,
{
    if l.delivered@ != l.captured@ {
        assert(l.captured@.drop_last() =~= l.captured@.subrange(0, l.captured@.len() - 1));
    }
}

/// A shutdown request is honoured within two steps: every step taken while the flag is
/// set either exits or sleeps, and the step after such a sleep exits.
pub proof fn lemma_shutdown_within_two_steps(
    interval_seconds: u64,
    phase: LoopPhase,
    event: LoopEvent,
    now_ms: u64,
    later_ms: u64,
)
    requires
        expects(phase, event),
    ensures
        ({
            let (p1, a1) = next_step(interval_seconds, phase, event, true, now_ms);
            ||| a1 is Exit
            ||| (a1 is Sleep && expects(p1, LoopEvent::Slept) && next_step(
                interval_seconds,
                p1,
                LoopEvent::Slept,
                true,
                later_ms,
            ).1 is Exit)
        }),
{
}

/// Every action the loop asks for can be answered by a report the loop expects.
pub proof fn lemma_actions_are_answerable(
    interval_seconds: u64,
    phase: LoopPhase,
    event: LoopEvent,
    shutdown: bool,
    now_ms: u64,
)
    requires
        expects(phase, event),
    ensures
        ({
            let (p1, a1) = next_step(interval_seconds, phase, event, shutdown, now_ms);
            &&& a1 is CaptureFrame ==> expects(p1, LoopEvent::FrameReady) && expects(
                p1,
                LoopEvent::CaptureFailed,
            )
            &&& a1 is TrySend ==> expects(p1, LoopEvent::Sent) && expects(
                p1,
                LoopEvent::ChannelFull,
            ) && expects(p1, LoopEvent::ChannelClosed)
            &&& a1 is Sleep ==> expects(p1, LoopEvent::Slept)
            &&& a1 is Exit ==> p1 is Stopped
        }),
{
}

/// The wait between captures lasts the configured interval: from the moment the short
/// pause after a cycle ends, and with no shutdown asked for, the loop sleeps in 100 ms
/// slices while fewer than `interval_seconds * 1000` milliseconds have passed (a clock
/// reading before the start counts as none passed), and asks for the next capture as
/// soon as they have.
pub proof fn lemma_wait_lasts_the_interval(interval_seconds: u64, since_ms: u64, now_ms: u64)
    ensures
        next_step(interval_seconds, LoopPhase::Waiting { since_ms }, LoopEvent::Slept, false, now_ms)
            == if (now_ms >= since_ms && now_ms - since_ms >= interval_seconds * 1000) || (now_ms
            < since_ms && interval_seconds == 0) {
            (LoopPhase::Capturing, LoopAction::CaptureFrame)
        } else {
            (LoopPhase::Waiting { since_ms }, LoopAction::Sleep { millis: 100 })
        },
        next_step(interval_seconds, LoopPhase::Settling, LoopEvent::Slept, false, now_ms) == if interval_seconds
            == 0 {
            (LoopPhase::Capturing, LoopAction::CaptureFrame)
        } else {
            (LoopPhase::Waiting { since_ms: now_ms }, LoopAction::Sleep { millis: 100 })
        },
{
}

} // verus!

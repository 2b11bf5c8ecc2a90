//! The countdown state machine.
//!
//! A timer is created idle with a default duration, is started and stopped
//! by the user, is driven once per frame by the wall-clock time elapsed
//! since the previous frame, and, once it has run down to zero, asks for
//! the alert to be fired exactly once per elapsed episode.

use vstd::prelude::*;

verus! {

/// The default configured duration: one minute.
pub const DEFAULT_DURATION_MS: u64 = 60000;

/// The phase of the countdown.
#[derive(Clone, Copy, Debug, PartialEq, Eq, Structural)]
pub enum Phase {
    /// Not counting down; some time remains on the clock.
    Idle,
    /// Counting down.
    Running,
    /// The countdown has reached zero.
    Elapsed,
}

/// The whole state of the countdown timer.
///
/// All times are whole milliseconds.
#[derive(Clone, Copy, Debug, PartialEq, Eq, Structural)]
pub struct TimerState {
    /// Time left on the clock.
    pub remaining_ms: u64,
    /// The duration the next start will count down from.
    pub duration_ms: u64,
    /// Where the countdown stands.
    pub phase: Phase,
    /// Whether the alert of the current elapsed episode has been dispatched.
    pub alert_fired: bool,
}

impl TimerState {
    /// States the machine can actually be in: the configured duration is
    /// positive, the phase is `Elapsed` exactly when the clock is at zero,
    /// and the alert guard is set only during an elapsed episode.
    pub open spec fn wf(self) -> bool {
        &&& self.duration_ms > 0
        &&& (self.phase is Elapsed <==> self.remaining_ms == 0)
        &&& (self.alert_fired ==> self.phase is Elapsed)
    }

    /// The fixed state the timer is created in and that `reset` restores.
    pub open spec fn default_spec() -> TimerState {
        TimerState {
            remaining_ms: DEFAULT_DURATION_MS,
            duration_ms: DEFAULT_DURATION_MS,
            phase: Phase::Idle,
            alert_fired: false,
        }
    }

    /// What starting does: begin a countdown over the configured duration
    /// and clear the alert guard, from whatever phase the timer was in.
    pub open spec fn spec_start(self) -> TimerState {
        TimerState {
            remaining_ms: self.duration_ms,
            duration_ms: self.duration_ms,
            phase: Phase::Running,
            alert_fired: false,
        }
    }

    /// What stopping does: cancel a running countdown, keeping the time
    /// left on the clock; in any other phase, nothing.
    pub open spec fn spec_stop(self) -> TimerState {
        if self.phase is Running {
            TimerState { phase: Phase::Idle, ..self }
        } else {
            self
        }
    }

    /// What one tick does: while running, take the elapsed time off the
    /// clock, floored at zero, and pass to `Elapsed` the moment the clock
    /// reaches zero; in any other phase, nothing.
    pub open spec fn spec_tick(self, dt_ms: u64) -> TimerState {
        if self.phase is Running {
            if dt_ms < self.remaining_ms {
                TimerState { remaining_ms: (self.remaining_ms - dt_ms) as u64, ..self }
            } else {
                TimerState { remaining_ms: 0, phase: Phase::Elapsed, ..self }
            }
        } else {
            self
        }
    }

    /// Whether polling the alert guard dispatches the alert: exactly when
    /// the countdown has elapsed and the alert of this episode is still
    /// owed.
    pub open spec fn spec_poll_fire(self) -> bool {
        self.phase is Elapsed && !self.alert_fired
    }

    /// What polling the alert guard does to the state: record that the
    /// alert of the current elapsed episode has been dispatched.
    pub open spec fn spec_poll(self) -> TimerState {
        TimerState { alert_fired: self.alert_fired || self.phase is Elapsed, ..self }
    }

    /// One whole frame: a tick, then a poll of the alert guard.
    pub open spec fn spec_frame(self, dt_ms: u64) -> TimerState {
        self.spec_tick(dt_ms).spec_poll()
    }

    /// Whether the frame dispatches the alert.
    pub open spec fn spec_frame_fires(self, dt_ms: u64) -> bool {
        self.spec_tick(dt_ms).spec_poll_fire()
    }

    /// Begin a countdown over the configured duration. Allowed in every
    /// phase; restarting from `Elapsed` opens a new episode, so the alert
    /// guard is cleared.
    pub fn start(&mut self)
        ensures
            *final(self) == old(self).spec_start(),
            old(self).wf() ==> final(self).wf(),
    {
        self.remaining_ms = self.duration_ms;
        self.phase = Phase::Running;
        self.alert_fired = false;
    }

    /// Cancel a running countdown. The time left stays on the clock; it is
    /// not reset. In any other phase this does nothing.
    pub fn stop(&mut self)
        ensures
            *final(self) == old(self).spec_stop(),
            old(self).wf() ==> final(self).wf(),
    {
        if self.phase == Phase::Running {
            self.phase = Phase::Idle;
        }
    }

    /// The start/stop button: stop a running countdown, start one
    /// otherwise.
    pub fn toggle(&mut self)
        ensures
            old(self).phase is Running ==> *final(self) == old(self).spec_stop(),
            !(old(self).phase is Running) ==> *final(self) == old(self).spec_start(),
            old(self).wf() ==> final(self).wf(),
    {
        if self.phase == Phase::Running {
            self.stop();
        } else {
            self.start();
        }
    }

    /// Return to the fixed default state: default duration restored, idle,
    /// alert guard cleared. Any partial countdown is discarded.
    pub fn reset(&mut self)
        ensures
            *final(self) == TimerState::default_spec(),
            final(self).wf(),
    {
        self.remaining_ms = DEFAULT_DURATION_MS;
        self.duration_ms = DEFAULT_DURATION_MS;
        self.phase = Phase::Idle;
        self.alert_fired = false;
    }

    /// Configure the duration the next start will count down from. A
    /// countdown already under way is not touched.
    pub fn set_duration(&mut self, duration_ms: u64)
        requires
            duration_ms > 0,
        ensures
            *final(self) == (TimerState { duration_ms, ..*old(self) }),
            old(self).wf() ==> final(self).wf(),
    {
        self.duration_ms = duration_ms;
    }

    /// Drive the countdown by the wall-clock time elapsed since the
    /// previous frame.
    pub fn tick(&mut self, dt_ms: u64)
        ensures
            *final(self) == old(self).spec_tick(dt_ms),
            old(self).wf() ==> final(self).wf(),
    {
        if self.phase == Phase::Running {
            if dt_ms < self.remaining_ms {
                self.remaining_ms = self.remaining_ms - dt_ms;
            } else {
                self.remaining_ms = 0;
                self.phase = Phase::Elapsed;
            }
        }
    }

    /// Ask once per frame whether the alert is to be dispatched now. True
    /// exactly once per elapsed episode: the first poll after the
    /// countdown reaches zero, and not again until a later countdown
    /// elapses anew.
    pub fn poll_alert(&mut self) -> (fire: bool)
        ensures
            fire == old(self).spec_poll_fire(),
            *final(self) == old(self).spec_poll(),
            old(self).wf() ==> final(self).wf(),
    {
        if self.phase == Phase::Elapsed && !self.alert_fired {
            self.alert_fired = true;
            true
        } else {
            false
        }
    }
}

impl Default for TimerState {
    /// A fresh timer: idle, one minute on the clock.
    fn default() -> (t: TimerState)
        ensures
            t == TimerState::default_spec(),
            t.wf(),
    {
        TimerState {
            remaining_ms: DEFAULT_DURATION_MS,
            duration_ms: DEFAULT_DURATION_MS,
            phase: Phase::Idle,
            alert_fired: false,
        }
    }
}

/// The total of a sequence of tick amounts, as a mathematical integer.
pub open spec fn sum_ms(dts: Seq<u64>) -> int
    decreases dts.len(),
{
    if dts.len() == 0 {
        0
    } else {
        dts[0] + sum_ms(dts.drop_first())
    }
}

/// The state after a sequence of ticks, one per element.
pub open spec fn run_ticks(t: TimerState, dts: Seq<u64>) -> TimerState
    decreases dts.len(),
{
    if dts.len() == 0 {
        t
    } else {
        run_ticks(t.spec_tick(dts[0]), dts.drop_first())
    }
}

/// The state after a sequence of whole frames (tick, then poll).
pub open spec fn run_frames(t: TimerState, dts: Seq<u64>) -> TimerState
    decreases dts.len(),
{
    if dts.len() == 0 {
        t
    } else {
        run_frames(t.spec_frame(dts[0]), dts.drop_first())
    }
}

/// How many of the frames dispatch the alert.
pub open spec fn fire_count(t: TimerState, dts: Seq<u64>) -> int
    decreases dts.len(),
{
    if dts.len() == 0 {
        0
    } else {
        (if t.spec_frame_fires(dts[0]) {
            1int
        } else {
            0int
        }) + fire_count(t.spec_frame(dts[0]), dts.drop_first())
    }
}

/// A total of unsigned amounts is at least zero.
proof fn lemma_sum_nonneg(dts: Seq<u64>)
    ensures
        sum_ms(dts) >= 0,
    decreases dts.len(),
{
    if dts.len() != 0 {
        lemma_sum_nonneg(dts.drop_first());
    }
}

/// Once the countdown is not running, further ticks change nothing: the
/// clock is not decremented again, however many frames arrive.
pub proof fn lemma_ticks_inert(t: TimerState, dts: Seq<u64>)
    requires
        !(t.phase is Running),
    ensures
        run_ticks(t, dts) == t,
    decreases dts.len(),
{
    if dts.len() != 0 {
        lemma_ticks_inert(t, dts.drop_first());
    }
}

/// Every sequence of tick amounts adding up to the time on the clock
/// drives a running countdown to exactly zero and out of the running
/// phase, however the total is split across the ticks.
pub proof fn lemma_ticks_drain(t: TimerState, dts: Seq<u64>)
    requires
        t.wf(),
        t.phase is Running,
        sum_ms(dts) == t.remaining_ms,
    ensures
        run_ticks(t, dts).remaining_ms == 0,
        run_ticks(t, dts).phase is Elapsed,
    decreases dts.len(),
{
    lemma_sum_nonneg(dts.drop_first());
    let t1 = t.spec_tick(dts[0]);
    if dts[0] < t.remaining_ms {
        lemma_ticks_drain(t1, dts.drop_first());
    } else {
        lemma_ticks_inert(t1, dts.drop_first());
    }
}

/// Frames delivered while the countdown is not running, and any owed alert
/// has already been dispatched, neither change the state nor fire: in
/// particular, staying in the elapsed phase never re-fires.
pub proof fn lemma_frames_inert(t: TimerState, dts: Seq<u64>)
    requires
        !(t.phase is Running),
        t.phase is Elapsed ==> t.alert_fired,
    ensures
        run_frames(t, dts) == t,
        fire_count(t, dts) == 0,
    decreases dts.len(),
{
    if dts.len() != 0 {
        assert(t.spec_frame(dts[0]) == t);
        lemma_frames_inert(t, dts.drop_first());
    }
}

/// The alert fires exactly once per elapsed episode: over any sequence of
/// frames whose tick amounts reach or overshoot the time on the clock of a
/// running countdown, the alert is dispatched on exactly one frame.
pub proof fn lemma_alert_fires_once(t: TimerState, dts: Seq<u64>)
    requires
        t.wf(),
        t.phase is Running,
        sum_ms(dts) >= t.remaining_ms,
    ensures
        fire_count(t, dts) == 1,
    decreases dts.len(),
{
    lemma_sum_nonneg(dts.drop_first());
    let t1 = t.spec_tick(dts[0]);
    if dts[0] < t.remaining_ms {
        assert(!t.spec_frame_fires(dts[0]));
        assert(t.spec_frame(dts[0]) == t1);
        lemma_alert_fires_once(t1, dts.drop_first());
    } else {
        assert(t.spec_frame_fires(dts[0]));
        lemma_frames_inert(t.spec_frame(dts[0]), dts.drop_first());
    }
}

} // verus!

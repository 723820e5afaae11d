//! The stopwatch, with start, pause, reset and a single recorded lap.
//!
//! As for the countdown timer, each operation that depends on the time
//! comes in a form that takes the current point in time and is stated
//! exactly, and in one that reads the stopwatch's own clock.

use vstd::prelude::*;

use crate::time::{sub_or_zero, Clock, Duration, Instant, MAX_NANOS};

verus! {

/// The state of a [`Stopwatch`] as plain numbers, in nanoseconds; points
/// are measured from the origin of the stopwatch's clock.
pub struct StopwatchView {
    pub elapsed_time: nat,
    pub last_start_time: Option<nat>,
    pub is_running: bool,
    pub last_lap: Option<nat>,
}

impl StopwatchView {
    /// A start time is held exactly while the stopwatch runs, and every
    /// span and point lies within the range of a duration.
    pub open spec fn wf(self) -> bool {
        &&& self.last_start_time.is_some() == self.is_running
        &&& self.elapsed_time <= MAX_NANOS
        &&& (self.last_start_time matches Some(s) ==> s <= MAX_NANOS)
        &&& (self.last_lap matches Some(l) ==> l <= MAX_NANOS)
    }
}

/// A new stopwatch: zero elapsed, not running, no lap.
pub open spec fn stopwatch_new() -> StopwatchView {
    StopwatchView { elapsed_time: 0, last_start_time: None, is_running: false, last_lap: None }
}

/// The time counted at `now`: the accrued time, plus the span since the
/// last start while running.
pub open spec fn current_elapsed_spec(s: StopwatchView, now: nat) -> nat {
    if s.is_running {
        match s.last_start_time {
            Some(start) => s.elapsed_time + sub_or_zero(now, start),
            None => s.elapsed_time,
        }
    } else {
        s.elapsed_time
    }
}

/// Starting at `now`: a stopwatch that is not running runs from `now`; a
/// running one is left as it is.
pub open spec fn sw_start_spec(s: StopwatchView, now: nat) -> StopwatchView {
    if s.is_running {
        s
    } else {
        StopwatchView { is_running: true, last_start_time: Some(now), ..s }
    }
}

/// Pausing at `now`: a running stopwatch adds the span since its start to
/// the accrued time and stops. Otherwise nothing changes.
pub open spec fn sw_pause_spec(s: StopwatchView, now: nat) -> StopwatchView {
    if s.is_running {
        StopwatchView {
            elapsed_time: current_elapsed_spec(s, now),
            is_running: false,
            last_start_time: None,
            ..s
        }
    } else {
        s
    }
}

/// Resetting: zero elapsed, not running, no lap.
pub open spec fn sw_reset_spec(s: StopwatchView) -> StopwatchView {
    stopwatch_new()
}

/// Recording a lap: the lap is replaced; nothing else changes.
pub open spec fn sw_lap_spec(s: StopwatchView, lap: nat) -> StopwatchView {
    StopwatchView { last_lap: Some(lap), ..s }
}

/// Whether the time counted at `now` stays within the range of a duration.
pub open spec fn elapsed_fits(s: StopwatchView, now: nat) -> bool {
    current_elapsed_spec(s, now) <= MAX_NANOS
}

/// Whether `after` is `before` paused at `now`, a point within the
/// clock's range: as [`sw_pause_spec`] says where the counted time stays
/// within the range of a duration, and unchanged where it would not.
pub open spec fn paused_now(before: StopwatchView, after: StopwatchView, now: nat) -> bool {
    &&& now <= MAX_NANOS
    &&& if elapsed_fits(before, now) {
        after == sw_pause_spec(before, now)
    } else {
        after == before
    }
}

/// Every operation keeps a well-formed stopwatch well formed; pausing
/// needs the counted time to stay within the range of a duration.
pub proof fn lemma_stopwatch_operations_keep_wf(s: StopwatchView, now: nat, lap: nat)
    requires
        s.wf(),
        now <= MAX_NANOS,
        lap <= MAX_NANOS,
        elapsed_fits(s, now),
    ensures
        stopwatch_new().wf(),
        sw_start_spec(s, now).wf(),
        sw_pause_spec(s, now).wf(),
        sw_reset_spec(s).wf(),
        sw_lap_spec(s, lap).wf(),
{
}

/// A paused stopwatch holds the time counted at the moment of the pause,
/// at every later point in time.
pub proof fn lemma_pause_freezes_elapsed(s: StopwatchView, now: nat, later: nat)
    ensures
        current_elapsed_spec(sw_pause_spec(s, now), later) == current_elapsed_spec(s, now),
        !sw_pause_spec(s, now).is_running,
{
}

/// A run from a start to a pause adds exactly the span between them to the
/// accrued time; the accrued time never falls across a run.
pub proof fn lemma_run_adds_span(s: StopwatchView, started: nat, paused: nat)
    requires
        s.wf(),
        !s.is_running,
    ensures
        sw_pause_spec(sw_start_spec(s, started), paused).elapsed_time == s.elapsed_time
            + sub_or_zero(paused, started),
        sw_pause_spec(sw_start_spec(s, started), paused).elapsed_time >= s.elapsed_time,
        current_elapsed_spec(sw_start_spec(s, started), started) == s.elapsed_time,
{
}

/// Two runs, started at `a1`, paused at `b1`, started again at `a2` and
/// paused at `b2`, add the lengths of both runs to the accrued time: the
/// pause between them counts nothing, and the total is at least what the
/// first run left.
pub proof fn lemma_two_runs_accrue(s: StopwatchView, a1: nat, b1: nat, a2: nat, b2: nat)
    requires
        s.wf(),
        !s.is_running,
        a1 <= b1 <= a2 <= b2,
    ensures
        sw_pause_spec(sw_start_spec(sw_pause_spec(sw_start_spec(s, a1), b1), a2), b2).elapsed_time
            == s.elapsed_time + (b1 - a1) + (b2 - a2),
        sw_pause_spec(sw_start_spec(sw_pause_spec(sw_start_spec(s, a1), b1), a2), b2).elapsed_time
            >= sw_pause_spec(sw_start_spec(s, a1), b1).elapsed_time,
        !sw_pause_spec(sw_start_spec(sw_pause_spec(sw_start_spec(s, a1), b1), a2), b2).is_running,
{
}

/// While the stopwatch runs, the time counted grows one for one with the
/// clock from its last start on: read at a later point, it is the time
/// counted earlier plus the span between the two readings.
pub proof fn lemma_running_counts_up(s: StopwatchView, now: nat, later: nat)
    requires
        s.wf(),
        s.is_running,
        s.last_start_time matches Some(start) && start <= now,
        now <= later,
    ensures
        current_elapsed_spec(s, later) == current_elapsed_spec(s, now) + (later - now),
        current_elapsed_spec(s, now) == s.elapsed_time + (now - s.last_start_time->0),
{
}

/// While the stopwatch runs, the time counted never falls as time passes.
pub proof fn lemma_elapsed_monotone(s: StopwatchView, now: nat, later: nat)
    requires
        s.wf(),
        now <= later,
    ensures
        current_elapsed_spec(s, now) <= current_elapsed_spec(s, later),
{
}

/// Recording a lap leaves the running state and the counted time as they
/// are, and a reset clears the lap.
pub proof fn lemma_lap_independent(s: StopwatchView, lap: nat, now: nat)
    ensures
        sw_lap_spec(s, lap).is_running == s.is_running,
        sw_lap_spec(s, lap).last_start_time == s.last_start_time,
        current_elapsed_spec(sw_lap_spec(s, lap), now) == current_elapsed_spec(s, now),
        sw_reset_spec(sw_lap_spec(s, lap)).last_lap is None,
        current_elapsed_spec(sw_reset_spec(s), now) == 0,
{
}

/// A stopwatch.
pub struct Stopwatch {
    elapsed_time: Duration,
    last_start_time: Option<Instant>,
    is_running: bool,
    last_lap: Option<Duration>,
    clock: Clock,
}

impl View for Stopwatch {
    type V = StopwatchView;

    closed spec fn view(&self) -> StopwatchView {
        StopwatchView {
            elapsed_time: self.elapsed_time@,
            last_start_time: match self.last_start_time {
                Some(t) => Some(t@),
                None => None,
            },
            is_running: self.is_running,
            last_lap: match self.last_lap {
                Some(l) => Some(l@),
                None => None,
            },
        }
    }
}

impl Default for Stopwatch {
    fn default() -> (s: Self)
        ensures
            s@ == stopwatch_new(),
    {
        Self::new()
    }
}

impl Stopwatch {
    #[verifier::type_invariant]
    closed spec fn inv(self) -> bool {
        self@.wf()
    }

    /// Replaces the counting state at once, keeping the lap and the clock.
    fn set_state(&mut self, elapsed_time: Duration, last_start_time: Option<Instant>)
        requires
            last_start_time.is_some() ==> (last_start_time matches Some(t) && t@ <= MAX_NANOS),
            elapsed_time@ <= MAX_NANOS,
            old(self)@.last_lap matches Some(l) ==> l <= MAX_NANOS,
        ensures
            final(self)@ == (StopwatchView {
                elapsed_time: elapsed_time@,
                last_start_time: match last_start_time {
                    Some(t) => Some(t@),
                    None => None,
                },
                is_running: last_start_time.is_some(),
                last_lap: old(self)@.last_lap,
            }),
    {
        *self = Stopwatch {
            elapsed_time,
            last_start_time,
            is_running: last_start_time.is_some(),
            last_lap: self.last_lap,
            clock: self.clock,
        };
    }

    /// A stopwatch at zero, not running, without a lap.
    pub fn new() -> (s: Self)
        ensures
            s@ == stopwatch_new(),
    {
        Self::new_on(Clock::new())
    }

    /// The clock the stopwatch reads.
    pub closed spec fn clock(&self) -> Clock {
        self.clock
    }

    /// A stopwatch at zero, not running, without a lap, that reads `clock`.
    pub fn new_on(clock: Clock) -> (s: Self)
        ensures
            s@ == stopwatch_new(),
            s.clock() == clock,
    {
        Self {
            elapsed_time: Duration::zero(),
            last_start_time: None,
            is_running: false,
            last_lap: None,
            clock,
        }
    }

    /// The point in time on this stopwatch's clock now.
    pub fn now(&self) -> (t: Instant)
        ensures
            t@ <= MAX_NANOS,
            self.clock().reads(t@),
    {
        self.clock.now()
    }

    /// Starts counting at `now`; a running stopwatch is left as it is.
    pub fn start_at(&mut self, now: Instant)
        ensures
            final(self)@ == sw_start_spec(old(self)@, now@),
    {
        proof {
            use_type_invariant(&*self);
        }
        if !self.is_running {
            let _ = now.since_origin().as_nanos();
            self.set_state(self.elapsed_time, Some(now));
        }
    }

    /// Starts counting now, on the stopwatch's clock.
    pub fn start(&mut self)
        ensures
            exists|now: nat| #[trigger] sw_start_spec(old(self)@, now) == final(self)@,
            old(self)@.is_running ==> final(self)@ == old(self)@,
            !old(self)@.is_running ==> exists|now: nat|
                #![trigger sw_start_spec(old(self)@, now)]
                old(self).clock().reads(now) && sw_start_spec(old(self)@, now) == final(self)@,
    {
        if !self.is_running {
            let now = self.clock.now();
            self.start_at(now);
        } else {
            assert(sw_start_spec(old(self)@, 0) == self@);
        }
    }

    /// Pauses at `now`, adding the span since the last start to the
    /// accrued time.
    pub fn pause_at(&mut self, now: Instant)
        requires
            elapsed_fits(old(self)@, now@),
        ensures
            final(self)@ == sw_pause_spec(old(self)@, now@),
    {
        proof {
            use_type_invariant(&*self);
        }
        if self.is_running {
            let elapsed = self.current_elapsed_at(now);
            self.set_state(elapsed, None);
        }
    }

    /// Pauses now, on the stopwatch's clock. Where the counted time would
    /// exceed the range of a duration, the stopwatch is left as it is.
    pub fn pause(&mut self)
        ensures
            exists|now: nat| #[trigger] paused_now(old(self)@, final(self)@, now),
            !old(self)@.is_running ==> final(self)@ == old(self)@,
            old(self)@.is_running ==> exists|now: nat|
                #![trigger paused_now(old(self)@, final(self)@, now)]
                old(self).clock().reads(now) && paused_now(old(self)@, final(self)@, now),
    {
        if self.is_running {
            let now = self.clock.now();
            if self.elapsed_fits_at(now) {
                self.pause_at(now);
            }
            assert(paused_now(old(self)@, self@, now@));
        } else {
            assert(paused_now(old(self)@, self@, 0));
        }
    }

    /// Stops and clears the counted time and the lap.
    pub fn reset(&mut self)
        ensures
            final(self)@ == sw_reset_spec(old(self)@),
    {
        *self = Stopwatch {
            elapsed_time: Duration::zero(),
            last_start_time: None,
            is_running: false,
            last_lap: None,
            clock: self.clock,
        };
    }

    /// Records `elapsed_at_lap` as the lap, replacing the one before.
    pub fn add_lap(&mut self, elapsed_at_lap: Duration)
        ensures
            final(self)@ == sw_lap_spec(old(self)@, elapsed_at_lap@),
    {
        proof {
            use_type_invariant(&*self);
        }
        let _ = elapsed_at_lap.as_nanos();
        *self = Stopwatch {
            elapsed_time: self.elapsed_time,
            last_start_time: self.last_start_time,
            is_running: self.is_running,
            last_lap: Some(elapsed_at_lap),
            clock: self.clock,
        };
    }

    /// The lap recorded last, if any.
    pub fn last_lap_elapsed(&self) -> (l: Option<Duration>)
        ensures
            l matches Some(d) ==> self@.last_lap == Some(d@),
            l is None ==> self@.last_lap is None,
    {
        self.last_lap
    }

    /// Whether the time counted at `now` stays within the range of a
    /// duration.
    pub fn elapsed_fits_at(&self, now: Instant) -> (b: bool)
        ensures
            b == elapsed_fits(self@, now@),
    {
        proof {
            use_type_invariant(self);
        }
        if self.is_running {
            match self.last_start_time {
                Some(start) => {
                    let since = now.saturating_duration_since(start);
                    self.elapsed_time.checked_add(since).is_some()
                },
                None => true,
            }
        } else {
            true
        }
    }

    /// The time counted at `now`.
    pub fn current_elapsed_at(&self, now: Instant) -> (d: Duration)
        requires
            elapsed_fits(self@, now@),
        ensures
            d@ == current_elapsed_spec(self@, now@),
    {
        if self.is_running {
            match self.last_start_time {
                Some(start_time) => {
                    let since = now.saturating_duration_since(start_time);
                    match self.elapsed_time.checked_add(since) {
                        Some(d) => d,
                        None => self.elapsed_time,
                    }
                },
                None => self.elapsed_time,
            }
        } else {
            self.elapsed_time
        }
    }

    /// The time counted now, on the stopwatch's clock. Where it would
    /// exceed the range of a duration, the largest duration is given.
    pub fn current_elapsed(&self) -> (d: Duration)
        ensures
            !self@.is_running ==> d@ == self@.elapsed_time,
            exists|now: nat|
                #[trigger] current_elapsed_spec(self@, now) == d@ || (d@ == MAX_NANOS
                    && current_elapsed_spec(self@, now) > MAX_NANOS),
            self@.is_running ==> exists|now: nat|
                #![trigger current_elapsed_spec(self@, now)]
                self.clock().reads(now) && (if elapsed_fits(self@, now) {
                    d@ == current_elapsed_spec(self@, now)
                } else {
                    d@ == MAX_NANOS
                }),
    {
        if self.is_running {
            let now = self.clock.now();
            if self.elapsed_fits_at(now) {
                self.current_elapsed_at(now)
            } else {
                Duration::from_nanos(MAX_NANOS)
            }
        } else {
            assert(current_elapsed_spec(self@, 0) == self@.elapsed_time);
            self.elapsed_time
        }
    }

    /// The accrued time up to the last pause.
    pub fn elapsed_time(&self) -> (d: Duration)
        ensures
            d@ == self@.elapsed_time,
    {
        self.elapsed_time
    }

    /// The point at which the current run started, held while running.
    pub fn last_start_time(&self) -> (t: Option<Instant>)
        ensures
            t matches Some(i) ==> self@.last_start_time == Some(i@),
            t is None ==> self@.last_start_time is None,
    {
        self.last_start_time
    }

    /// Whether the stopwatch runs.
    pub fn is_running(&self) -> (b: bool)
        ensures
            b == self@.is_running,
    {
        self.is_running
    }
}

} // verus!

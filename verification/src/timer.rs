//! The countdown timer.
//!
//! The timer distinguishes three user-visible states:
//! - **stopped**: not running, not paused, not finished (just made or reset);
//!   shown in the idle color.
//! - **paused**: previously running, now held; shown in the running color
//!   and blinking, to signal that it is not counting down.
//! - **finished**: the countdown reached zero and the event loop
//!   acknowledged it with [`CountdownTimer::finish`]; shown in the idle
//!   color, without blinking.
//!
//! Each operation that depends on the time comes in two forms: one that
//! takes the current point in time as an argument and is stated exactly,
//! and one that reads the timer's own clock.

use vstd::prelude::*;

use crate::time::{sub_or_zero, Clock, Duration, Instant, MAX_NANOS, NANOS_PER_SEC};

verus! {

/// The state of a [`CountdownTimer`] as plain numbers: spans and points in
/// nanoseconds, points measured from the origin of the timer's clock.
pub struct TimerView {
    pub duration: nat,
    pub initial_duration: nat,
    pub end_time: Option<nat>,
    pub is_running: bool,
    pub is_paused: bool,
    pub is_finished: bool,
}

impl TimerView {
    /// An end time is set exactly while the timer runs, at most one of
    /// running, paused and finished holds, and every span and point lies
    /// within the range of a duration.
    pub open spec fn wf(self) -> bool {
        &&& self.end_time.is_some() == self.is_running
        &&& !(self.is_running && self.is_paused)
        &&& !(self.is_running && self.is_finished)
        &&& !(self.is_paused && self.is_finished)
        &&& self.duration <= MAX_NANOS
        &&& self.initial_duration <= MAX_NANOS
        &&& (self.end_time matches Some(e) ==> e <= MAX_NANOS)
    }
}

/// A timer made with a duration of `secs` seconds: stopped, with that
/// duration as both its current and its initial duration.
pub open spec fn timer_made(secs: nat) -> TimerView {
    TimerView {
        duration: secs * (NANOS_PER_SEC as nat),
        initial_duration: secs * (NANOS_PER_SEC as nat),
        end_time: None,
        is_running: false,
        is_paused: false,
        is_finished: false,
    }
}

/// The time left at `now`: the span until the end time while one is set,
/// the held duration otherwise.
pub open spec fn remaining_spec(t: TimerView, now: nat) -> nat {
    match t.end_time {
        Some(e) => sub_or_zero(e, now),
        None => t.duration,
    }
}

/// Starting at `now`: a timer that is not running records a nonzero
/// duration as its initial duration, sets its end time to `now` plus the
/// time left, and runs. A running timer is left as it is.
pub open spec fn start_spec(t: TimerView, now: nat) -> TimerView {
    if t.is_running {
        t
    } else {
        TimerView {
            initial_duration: if t.duration > 0 { t.duration } else { t.initial_duration },
            end_time: Some(now + remaining_spec(t, now)),
            is_running: true,
            is_paused: false,
            is_finished: false,
            ..t
        }
    }
}

/// Pausing at `now`: a running timer holds the time left at `now` as its
/// duration, drops its end time and is paused. Otherwise nothing changes.
pub open spec fn pause_spec(t: TimerView, now: nat) -> TimerView {
    if t.is_running {
        TimerView {
            duration: remaining_spec(t, now),
            end_time: None,
            is_running: false,
            is_paused: true,
            ..t
        }
    } else {
        t
    }
}

/// Resetting: stopped, with the initial duration restored.
pub open spec fn reset_spec(t: TimerView) -> TimerView {
    TimerView {
        duration: t.initial_duration,
        end_time: None,
        is_running: false,
        is_paused: false,
        is_finished: false,
        ..t
    }
}

/// Finishing: a zero duration, no end time, and finished.
pub open spec fn finish_spec(t: TimerView) -> TimerView {
    TimerView {
        duration: 0,
        end_time: None,
        is_running: false,
        is_paused: false,
        is_finished: true,
        ..t
    }
}

/// Stopping: not running, paused nor finished; the duration is kept.
pub open spec fn stop_spec(t: TimerView) -> TimerView {
    TimerView {
        end_time: None,
        is_running: false,
        is_paused: false,
        is_finished: false,
        ..t
    }
}

/// `x` read back as a signed 64-bit integer, as a cast from `u64` to `i64`
/// reads it.
pub open spec fn u64_as_i64(x: nat) -> int {
    if x <= i64::MAX {
        x as int
    } else {
        x - 0x1_0000_0000_0000_0000
    }
}

/// The whole seconds the duration of `t` shifts to when moved by `delta`
/// seconds, before the shift is clamped at zero.
pub open spec fn shifted_secs(t: TimerView, delta: int) -> int {
    u64_as_i64(t.duration / (NANOS_PER_SEC as nat)) + delta
}

/// Setting the duration to `secs` seconds (clamped at zero) at `now`: a
/// running timer keeps running, with its end time moved to `now` plus the
/// new duration.
pub open spec fn set_secs_spec(t: TimerView, secs: int, now: nat) -> TimerView {
    let d = if secs < 0 { 0 } else { secs * NANOS_PER_SEC };
    TimerView {
        duration: d as nat,
        end_time: if t.is_running { Some(now + d as nat) } else { t.end_time },
        ..t
    }
}

/// Whether the shift of the duration by `delta` seconds stays within the
/// signed 64-bit range in which the timer computes it.
pub open spec fn shift_fits(t: TimerView, delta: int) -> bool {
    i64::MIN <= shifted_secs(t, delta) <= i64::MAX
}

/// Whether, setting the duration to `secs` seconds at `now`, a running
/// timer's new end time stays within the range of the clock.
pub open spec fn set_secs_fits(t: TimerView, secs: int, now: nat) -> bool {
    t.is_running ==> now + (if secs < 0 { 0 } else { secs * NANOS_PER_SEC }) <= MAX_NANOS
}

/// Whether starting at `now` is done as [`start_spec`] says: the timer
/// runs already, or its end time lies within the range of the clock.
pub open spec fn start_fits(t: TimerView, now: nat) -> bool {
    t.is_running || now + remaining_spec(t, now) <= MAX_NANOS
}

/// Whether `after` is `before` started at `now`, a point within the
/// clock's range: as [`start_spec`] says where [`start_fits`] holds, and
/// unchanged where the end time would lie beyond the clock's range.
pub open spec fn started_now(before: TimerView, after: TimerView, now: nat) -> bool {
    &&& now <= MAX_NANOS
    &&& if start_fits(before, now) {
        after == start_spec(before, now)
    } else {
        after == before
    }
}

/// Whether `after` is `before` with its duration set to `secs` seconds at
/// `now`, a point within the clock's range: as [`set_secs_spec`] says where
/// [`set_secs_fits`] holds, and unchanged where a running timer's new end
/// time would lie beyond the clock's range.
pub open spec fn set_secs_now(before: TimerView, after: TimerView, secs: int, now: nat) -> bool {
    &&& now <= MAX_NANOS
    &&& if set_secs_fits(before, secs, now) {
        after == set_secs_spec(before, secs, now)
    } else {
        after == before
    }
}

/// The initial duration changes only when a timer that is not running
/// starts with a nonzero duration, and then becomes that duration; every
/// other operation keeps it.
pub proof fn lemma_initial_duration_changes_only_at_start(t: TimerView, now: nat, secs: int)
    ensures
        start_spec(t, now).initial_duration == if !t.is_running && t.duration > 0 {
            t.duration
        } else {
            t.initial_duration
        },
        pause_spec(t, now).initial_duration == t.initial_duration,
        reset_spec(t).initial_duration == t.initial_duration,
        finish_spec(t).initial_duration == t.initial_duration,
        stop_spec(t).initial_duration == t.initial_duration,
        set_secs_spec(t, secs, now).initial_duration == t.initial_duration,
{
}

/// One operation of the timer's mutators, with the point in time it reads
/// and, for a change of the duration, the seconds it sets.
pub enum TimerOp {
    Start(nat),
    Pause(nat),
    Reset,
    Finish,
    Stop,
    SetSecs(int, nat),
}

/// The timer after one operation, as the mutators do it: a start whose end
/// time, or a change of a running timer's duration whose new end time,
/// would lie beyond the clock's range leaves the timer as it is.
pub open spec fn apply_op(t: TimerView, op: TimerOp) -> TimerView {
    match op {
        TimerOp::Start(now) => if start_fits(t, now) {
            start_spec(t, now)
        } else {
            t
        },
        TimerOp::Pause(now) => pause_spec(t, now),
        TimerOp::Reset => reset_spec(t),
        TimerOp::Finish => finish_spec(t),
        TimerOp::Stop => stop_spec(t),
        TimerOp::SetSecs(secs, now) => if set_secs_fits(t, secs, now) {
            set_secs_spec(t, secs, now)
        } else {
            t
        },
    }
}

/// The timer after a sequence of operations, in order.
pub open spec fn apply_ops(t: TimerView, ops: Seq<TimerOp>) -> TimerView
    decreases ops.len(),
{
    if ops.len() == 0 {
        t
    } else {
        apply_op(apply_ops(t, ops.drop_last()), ops.last())
    }
}

/// Whether `op` is a start that takes effect on `t` while it is not
/// running and has a nonzero duration.
pub open spec fn records_duration(t: TimerView, op: TimerOp) -> bool {
    &&& op matches TimerOp::Start(now)
    &&& !t.is_running
    &&& t.duration > 0
    &&& start_fits(t, now)
}

/// The duration a reset goes back to after a sequence of operations: the
/// duration at the most recent start that found the timer not running with
/// a nonzero duration, or the initial duration of `t` where there was none.
pub open spec fn reset_target(t: TimerView, ops: Seq<TimerOp>) -> nat
    decreases ops.len(),
{
    if ops.len() == 0 {
        t.initial_duration
    } else if records_duration(apply_ops(t, ops.drop_last()), ops.last()) {
        apply_ops(t, ops.drop_last()).duration
    } else {
        reset_target(t, ops.drop_last())
    }
}

/// After any sequence of operations, the initial duration is the duration
/// at the most recent start that found the timer not running with a
/// nonzero duration (or the timer's first initial duration where there was
/// none), and a reset restores it; for a timer made with `secs` seconds
/// and never so started, a reset gives back those seconds.
pub proof fn lemma_reset_target(t: TimerView, ops: Seq<TimerOp>, secs: nat)
    ensures
        apply_ops(t, ops).initial_duration == reset_target(t, ops),
        reset_spec(apply_ops(t, ops)).duration == reset_target(t, ops),
        (forall|i: int|
            0 <= i < ops.len() ==> !#[trigger] records_duration(
                apply_ops(timer_made(secs), ops.take(i)),
                ops[i],
            )) ==> reset_target(timer_made(secs), ops) == secs * (NANOS_PER_SEC as nat),
    decreases ops.len(),
{
    if ops.len() > 0 {
        let before = apply_ops(t, ops.drop_last());
        lemma_reset_target(t, ops.drop_last(), secs);
        match ops.last() {
            TimerOp::Start(now) => lemma_initial_duration_changes_only_at_start(before, now, 0),
            TimerOp::Pause(now) => lemma_initial_duration_changes_only_at_start(before, now, 0),
            TimerOp::SetSecs(v, now) => lemma_initial_duration_changes_only_at_start(before, now, v),
            _ => lemma_initial_duration_changes_only_at_start(before, 0, 0),
        }
        let made = timer_made(secs);
        let last = (ops.len() - 1) as int;
        assert(ops.take(last) =~= ops.drop_last());
        if forall|i: int|
            0 <= i < ops.len() ==> !#[trigger] records_duration(
                apply_ops(made, ops.take(i)),
                ops[i],
            ) {
            assert(!records_duration(apply_ops(made, ops.take(last)), ops[last]));
            assert forall|i: int|
                0 <= i < ops.drop_last().len() implies !#[trigger] records_duration(
                apply_ops(made, ops.drop_last().take(i)),
                ops.drop_last()[i],
            ) by {
                assert(ops.drop_last().take(i) =~= ops.take(i));
                assert(!records_duration(apply_ops(made, ops.take(i)), ops[i]));
            }
        }
    }
}

/// Whether the countdown reached zero at `now` while running.
pub open spec fn expired_spec(t: TimerView, now: nat) -> bool {
    t.is_running && remaining_spec(t, now) == 0
}

/// Every operation keeps a well-formed timer well formed; starting needs
/// the end time to lie within the clock's range, and setting the duration
/// of a running timer likewise.
pub proof fn lemma_operations_keep_wf(t: TimerView, now: nat, secs: int)
    requires
        t.wf(),
        now <= MAX_NANOS,
        !t.is_running ==> now + remaining_spec(t, now) <= MAX_NANOS,
        secs <= u64::MAX,
        set_secs_fits(t, secs, now),
    ensures
        start_spec(t, now).wf(),
        pause_spec(t, now).wf(),
        reset_spec(t).wf(),
        finish_spec(t).wf(),
        stop_spec(t).wf(),
        set_secs_spec(t, secs, now).wf(),
{
    if secs >= 0 {
        assert(secs * NANOS_PER_SEC <= MAX_NANOS) by (nonlinear_arith)
            requires
                0 <= secs <= u64::MAX,
        ;
    }
}

/// Starting and then resetting restores the duration the timer had when it
/// was started, also after a pause in between.
pub proof fn lemma_reset_restores_started_duration(t: TimerView, started: nat, paused: nat)
    requires
        t.wf(),
        !t.is_running,
        t.duration > 0,
    ensures
        reset_spec(start_spec(t, started)).duration == t.duration,
        reset_spec(pause_spec(start_spec(t, started), paused)).duration == t.duration,
        reset_spec(start_spec(t, started)).is_running == false,
{
}

/// While a countdown runs, the time left falls one for one with the clock,
/// down to zero: read at a later point, it is the time left earlier less
/// the span between the two readings.
pub proof fn lemma_remaining_falls_with_clock(t: TimerView, now: nat, later: nat)
    requires
        t.wf(),
        t.is_running,
        now <= later,
    ensures
        remaining_spec(t, later) == sub_or_zero(remaining_spec(t, now), (later - now) as nat),
        remaining_spec(t, later) <= remaining_spec(t, now),
        remaining_spec(t, now) > 0 && later < now + remaining_spec(t, now) ==> remaining_spec(
            t,
            later,
        ) > 0 && !expired_spec(t, later),
{
}

/// A countdown started at `start` with a duration `d` has, at any point
/// `now` from then on, `d` less the time since the start left, and it has
/// expired exactly from `start + d` on.
pub proof fn lemma_started_countdown_left(t: TimerView, start: nat, now: nat)
    requires
        t.wf(),
        !t.is_running,
        start <= now,
    ensures
        remaining_spec(start_spec(t, start), now) == sub_or_zero(t.duration, (now - start) as nat),
        expired_spec(start_spec(t, start), now) <==> now >= start + t.duration,
{
}

/// A paused countdown holds the time left at the moment of the pause, at
/// every later point in time.
pub proof fn lemma_pause_freezes_remaining(t: TimerView, now: nat, later: nat)
    requires
        t.wf(),
        t.is_running,
    ensures
        remaining_spec(pause_spec(t, now), later) == remaining_spec(t, now),
        pause_spec(t, now).is_paused,
{
}

/// Starting leaves the time left at the moment of the start unchanged,
/// and from then on the countdown falls by the time that passes, down to
/// zero.
pub proof fn lemma_start_counts_down(t: TimerView, now: nat, later: nat)
    requires
        t.wf(),
        !t.is_running,
        now <= later,
    ensures
        remaining_spec(start_spec(t, now), now) == t.duration,
        remaining_spec(start_spec(t, now), later) == sub_or_zero(t.duration, (later - now) as nat),
{
}

/// Pausing at the moment of the start gives back the duration the timer
/// was started with.
pub proof fn lemma_pause_right_after_start(t: TimerView, now: nat)
    requires
        t.wf(),
        !t.is_running,
    ensures
        pause_spec(start_spec(t, now), now).duration == t.duration,
        pause_spec(start_spec(t, now), now).is_paused,
{
}

/// A finished timer has not expired, at every point in time, so the event
/// loop does not report its completion twice.
pub proof fn lemma_finished_not_expired(t: TimerView, now: nat)
    ensures
        !expired_spec(finish_spec(t), now),
        finish_spec(t).is_finished,
        remaining_spec(finish_spec(t), now) == 0,
{
}

/// A timer started with a zero duration has expired at once and at every
/// later point in time, with nothing left; the start keeps its initial
/// duration as the reset target.
pub proof fn lemma_zero_duration_expires_at_start(t: TimerView, now: nat, later: nat)
    requires
        t.wf(),
        !t.is_running,
        t.duration == 0,
        now <= later,
    ensures
        expired_spec(start_spec(t, now), now),
        expired_spec(start_spec(t, now), later),
        remaining_spec(start_spec(t, now), later) == 0,
        start_spec(t, now).initial_duration == t.initial_duration,
{
}

/// Setting the duration leaves the running, paused and finished flags as
/// they are: adjusting never stops a running countdown.
pub proof fn lemma_set_duration_keeps_flags(t: TimerView, secs: int, now: nat)
    ensures
        set_secs_spec(t, secs, now).is_running == t.is_running,
        set_secs_spec(t, secs, now).is_paused == t.is_paused,
        set_secs_spec(t, secs, now).is_finished == t.is_finished,
        t.is_running ==> set_secs_spec(t, secs, now).end_time is Some,
{
}

/// On a duration of whole seconds, moving it by `delta` seconds and back
/// restores it, as long as it does not reach zero on the way.
pub proof fn lemma_adjust_round_trip(t: TimerView, delta: int, now1: nat, now2: nat)
    requires
        t.wf(),
        t.duration % (NANOS_PER_SEC as nat) == 0,
        t.duration / (NANOS_PER_SEC as nat) <= i64::MAX,
        shift_fits(t, delta),
        shifted_secs(t, delta) >= 0,
        i64::MIN <= shifted_secs(t, delta) - delta <= i64::MAX,
    ensures
        ({
            let moved = set_secs_spec(t, shifted_secs(t, delta), now1);
            set_secs_spec(moved, shifted_secs(moved, -delta), now2).duration == t.duration
        }),
{
    let n = NANOS_PER_SEC as nat;
    let s = t.duration / n;
    let k = shifted_secs(t, delta);
    assert(t.duration == s * n) by (nonlinear_arith)
        requires
            t.duration % n == 0,
            s == t.duration / n,
            n > 0,
    ;
    assert((k * n) / (n as int) == k) by (nonlinear_arith)
        requires
            k >= 0,
            n > 0,
    ;
    assert(k <= u64::MAX);
}

/// A countdown timer.
pub struct CountdownTimer {
    duration: Duration,
    initial_duration: Duration,
    end_time: Option<Instant>,
    is_running: bool,
    is_paused: bool,
    is_finished: bool,
    clock: Clock,
}

impl View for CountdownTimer {
    type V = TimerView;

    closed spec fn view(&self) -> TimerView {
        TimerView {
            duration: self.duration@,
            initial_duration: self.initial_duration@,
            end_time: match self.end_time {
                Some(e) => Some(e@),
                None => None,
            },
            is_running: self.is_running,
            is_paused: self.is_paused,
            is_finished: self.is_finished,
        }
    }
}

impl CountdownTimer {
    #[verifier::type_invariant]
    closed spec fn inv(self) -> bool {
        self@.wf()
    }

    /// Replaces the whole state at once, keeping the clock.
    fn set_state(
        &mut self,
        duration: Duration,
        initial_duration: Duration,
        end_time: Option<Instant>,
        is_running: bool,
        is_paused: bool,
        is_finished: bool,
    )
        requires
            (TimerView {
                duration: duration@,
                initial_duration: initial_duration@,
                end_time: match end_time {
                    Some(e) => Some(e@),
                    None => None,
                },
                is_running,
                is_paused,
                is_finished,
            }).wf(),
        ensures
            final(self)@ == (TimerView {
                duration: duration@,
                initial_duration: initial_duration@,
                end_time: match end_time {
                    Some(e) => Some(e@),
                    None => None,
                },
                is_running,
                is_paused,
                is_finished,
            }),
    {
        *self = CountdownTimer {
            duration,
            initial_duration,
            end_time,
            is_running,
            is_paused,
            is_finished,
            clock: self.clock,
        };
    }

    /// A stopped timer of `secs` seconds.
    pub fn with_duration(secs: u64) -> (t: CountdownTimer)
        ensures
            t@ == timer_made(secs as nat),
    {
        Self::with_duration_on(secs, Clock::new())
    }

    /// The clock the timer reads.
    pub closed spec fn clock(&self) -> Clock {
        self.clock
    }

    /// The state is well formed (see [`TimerView::wf`]): an end time is set
    /// exactly while the timer runs, and at most one of running, paused and
    /// finished holds.
    pub fn well_formed(&self)
        ensures
            self@.wf(),
    {
        proof {
            use_type_invariant(self);
        }
    }

    /// A stopped timer of `secs` seconds that reads `clock`.
    pub fn with_duration_on(secs: u64, clock: Clock) -> (t: CountdownTimer)
        ensures
            t@ == timer_made(secs as nat),
            t.clock() == clock,
    {
        let default_dur = Duration::from_secs(secs);
        CountdownTimer {
            duration: default_dur,
            initial_duration: default_dur,
            end_time: None,
            is_running: false,
            is_paused: false,
            is_finished: false,
            clock,
        }
    }

    /// The point in time on this timer's clock now.
    pub fn now(&self) -> (t: Instant)
        ensures
            t@ <= MAX_NANOS,
            self.clock().reads(t@),
    {
        self.clock.now()
    }

    /// The time left at `now`.
    pub fn remaining_at(&self, now: Instant) -> (d: Duration)
        ensures
            d@ == remaining_spec(self@, now@),
    {
        match self.end_time {
            Some(end) => end.saturating_duration_since(now),
            None => self.duration,
        }
    }

    /// The time left now, read on the timer's clock. Without an end time
    /// it is the held duration; with one it is the span from the clock's
    /// reading to the end time: the time left at a reading of the clock
    /// taken during the call.
    pub fn remaining(&self) -> (d: Duration)
        ensures
            self@.end_time is None ==> d@ == self@.duration,
            self@.end_time matches Some(e) ==> exists|now: nat|
                #![trigger sub_or_zero(e, now)]
                self.clock().reads(now) && sub_or_zero(e, now) == d@ && d@ == remaining_spec(
                    self@,
                    now,
                ),
    {
        match self.end_time {
            Some(_) => self.remaining_at(self.clock.now()),
            None => self.duration,
        }
    }

    /// Starts the countdown at `now`; a running timer is left as it is.
    pub fn start_at(&mut self, now: Instant)
        requires
            !old(self)@.is_running ==> now@ + remaining_spec(old(self)@, now@) <= MAX_NANOS,
        ensures
            final(self)@ == start_spec(old(self)@, now@),
    {
        proof {
            use_type_invariant(&*self);
        }
        if !self.is_running {
            let initial = if !self.duration.is_zero() {
                self.duration
            } else {
                self.initial_duration
            };
            let left = self.remaining_at(now);
            match now.checked_add(left) {
                Some(end) => {
                    self.set_state(self.duration, initial, Some(end), true, false, false);
                },
                None => {},
            }
        }
    }

    /// Starts the countdown now, on the timer's clock. A running timer is
    /// left as it is; so is a timer whose end time would lie beyond the
    /// range of the clock.
    pub fn start(&mut self)
        ensures
            exists|now: nat| #[trigger] started_now(old(self)@, final(self)@, now),
            old(self)@.is_running ==> final(self)@ == old(self)@,
            !old(self)@.is_running ==> exists|now: nat|
                #![trigger started_now(old(self)@, final(self)@, now)]
                old(self).clock().reads(now) && started_now(old(self)@, final(self)@, now),
    {
        if !self.is_running {
            let now = self.clock.now();
            let left = self.remaining_at(now);
            if now.checked_add(left).is_some() {
                self.start_at(now);
            }
            assert(started_now(old(self)@, self@, now@));
        } else {
            assert(started_now(old(self)@, self@, 0));
        }
    }

    /// Pauses the countdown at `now`, holding the time left.
    pub fn pause_at(&mut self, now: Instant)
        ensures
            final(self)@ == pause_spec(old(self)@, now@),
    {
        proof {
            use_type_invariant(&*self);
        }
        if self.is_running {
            let left = self.remaining_at(now);
            self.set_state(left, self.initial_duration, None, false, true, self.is_finished);
        }
    }

    /// Pauses the countdown now, on the timer's clock.
    pub fn pause(&mut self)
        ensures
            exists|now: nat| #[trigger] pause_spec(old(self)@, now) == final(self)@,
            !old(self)@.is_running ==> final(self)@ == old(self)@,
            old(self)@.is_running ==> exists|now: nat|
                #![trigger pause_spec(old(self)@, now)]
                old(self).clock().reads(now) && pause_spec(old(self)@, now) == final(self)@,
    {
        if self.is_running {
            let now = self.clock.now();
            self.pause_at(now);
        } else {
            assert(pause_spec(old(self)@, 0) == self@);
        }
    }

    /// Stops the countdown and restores the initial duration.
    pub fn reset(&mut self)
        ensures
            final(self)@ == reset_spec(old(self)@),
    {
        proof {
            use_type_invariant(&*self);
        }
        self.set_state(self.initial_duration, self.initial_duration, None, false, false, false);
    }

    /// Marks the timer as finished: the countdown reached zero and was
    /// acknowledged. Clears the running and paused flags.
    pub fn finish(&mut self)
        ensures
            final(self)@ == finish_spec(old(self)@),
    {
        proof {
            use_type_invariant(&*self);
        }
        self.set_state(Duration::zero(), self.initial_duration, None, false, false, true);
    }

    /// Moves the duration by `delta` minutes at `now`, clamping it at zero.
    /// A running timer **stays running**: only its end time is moved.
    pub fn adjust_minutes_at(&mut self, delta: i32, now: Instant)
        requires
            shift_fits(old(self)@, delta * 60),
            set_secs_fits(old(self)@, shifted_secs(old(self)@, delta * 60), now@),
        ensures
            final(self)@ == set_secs_spec(old(self)@, shifted_secs(old(self)@, delta * 60), now@),
    {
        let secs = self.duration_secs_as_i64() + delta as i64 * 60;
        self.set_duration_seconds_at(secs, now);
    }

    /// Moves the duration by `delta` seconds at `now`. See
    /// [`adjust_minutes_at`](Self::adjust_minutes_at).
    pub fn adjust_seconds_at(&mut self, delta: i32, now: Instant)
        requires
            shift_fits(old(self)@, delta as int),
            set_secs_fits(old(self)@, shifted_secs(old(self)@, delta as int), now@),
        ensures
            final(self)@ == set_secs_spec(old(self)@, shifted_secs(old(self)@, delta as int), now@),
    {
        let secs = self.duration_secs_as_i64() + delta as i64;
        self.set_duration_seconds_at(secs, now);
    }

    /// Moves the duration by `delta` minutes, reading the timer's clock if
    /// it runs. A running timer whose new end time would lie beyond the
    /// range of the clock is left as it is.
    pub fn adjust_minutes(&mut self, delta: i32)
        requires
            shift_fits(old(self)@, delta * 60),
        ensures
            exists|now: nat|
                #[trigger] set_secs_now(
                    old(self)@,
                    final(self)@,
                    shifted_secs(old(self)@, delta * 60),
                    now,
                ),
            !old(self)@.is_running ==> final(self)@ == set_secs_spec(
                old(self)@,
                shifted_secs(old(self)@, delta * 60),
                0,
            ),
            old(self)@.is_running ==> exists|now: nat|
                #![trigger set_secs_now(old(self)@, final(self)@, shifted_secs(old(self)@, delta * 60), now)]
                old(self).clock().reads(now) && set_secs_now(
                    old(self)@,
                    final(self)@,
                    shifted_secs(old(self)@, delta * 60),
                    now,
                ),
    {
        let secs = self.duration_secs_as_i64() + delta as i64 * 60;
        self.set_duration_seconds(secs);
    }

    /// Moves the duration by `delta` seconds. See
    /// [`adjust_minutes`](Self::adjust_minutes).
    pub fn adjust_seconds(&mut self, delta: i32)
        requires
            shift_fits(old(self)@, delta as int),
        ensures
            exists|now: nat|
                #[trigger] set_secs_now(
                    old(self)@,
                    final(self)@,
                    shifted_secs(old(self)@, delta as int),
                    now,
                ),
            !old(self)@.is_running ==> final(self)@ == set_secs_spec(
                old(self)@,
                shifted_secs(old(self)@, delta as int),
                0,
            ),
            old(self)@.is_running ==> exists|now: nat|
                #![trigger set_secs_now(old(self)@, final(self)@, shifted_secs(old(self)@, delta as int), now)]
                old(self).clock().reads(now) && set_secs_now(
                    old(self)@,
                    final(self)@,
                    shifted_secs(old(self)@, delta as int),
                    now,
                ),
    {
        let secs = self.duration_secs_as_i64() + delta as i64;
        self.set_duration_seconds(secs);
    }

    /// Whether moving the duration by `delta` seconds at `now` keeps the
    /// arithmetic in range: the shifted seconds fit a signed 64-bit
    /// integer, and a running timer's new end time lies within the clock's
    /// range.
    pub fn shift_fits_at(&self, delta: i64, now: Instant) -> (b: bool)
        ensures
            b == (shift_fits(self@, delta as int) && set_secs_fits(
                self@,
                shifted_secs(self@, delta as int),
                now@,
            )),
    {
        match self.duration_secs_as_i64().checked_add(delta) {
            None => false,
            Some(secs) => {
                if self.is_running {
                    now.checked_add(Self::clamped_secs(secs)).is_some()
                } else {
                    true
                }
            },
        }
    }

    /// The whole seconds of the duration, read back as a signed 64-bit
    /// integer.
    fn duration_secs_as_i64(&self) -> (s: i64)
        ensures
            s == u64_as_i64(self@.duration / (NANOS_PER_SEC as nat)),
    {
        let secs = self.duration.as_secs();
        if secs <= i64::MAX as u64 {
            secs as i64
        } else {
            let below = (u64::MAX - secs) as i64;
            -below - 1
        }
    }

    /// The duration of `secs` seconds, clamped at zero.
    fn clamped_secs(secs: i64) -> (d: Duration)
        ensures
            d@ == (if secs < 0 { 0 } else { secs * NANOS_PER_SEC }),
    {
        if secs < 0 {
            Duration::zero()
        } else {
            Duration::from_secs(secs as u64)
        }
    }

    fn set_duration_seconds_at(&mut self, secs: i64, now: Instant)
        requires
            set_secs_fits(old(self)@, secs as int, now@),
        ensures
            final(self)@ == set_secs_spec(old(self)@, secs as int, now@),
    {
        proof {
            use_type_invariant(&*self);
        }
        let d = Self::clamped_secs(secs);
        if self.is_running {
            match now.checked_add(d) {
                Some(end) => {
                    self.set_state(d, self.initial_duration, Some(end), true, false, false);
                },
                None => {},
            }
        } else {
            self.set_state(
                d,
                self.initial_duration,
                self.end_time,
                false,
                self.is_paused,
                self.is_finished,
            );
        }
    }

    fn set_duration_seconds(&mut self, secs: i64)
        ensures
            exists|now: nat| #[trigger] set_secs_now(old(self)@, final(self)@, secs as int, now),
            !old(self)@.is_running ==> final(self)@ == set_secs_spec(old(self)@, secs as int, 0),
            old(self)@.is_running ==> exists|now: nat|
                #![trigger set_secs_now(old(self)@, final(self)@, secs as int, now)]
                old(self).clock().reads(now) && set_secs_now(
                    old(self)@,
                    final(self)@,
                    secs as int,
                    now,
                ),
    {
        if self.is_running {
            let now = self.clock.now();
            let d = Self::clamped_secs(secs);
            if now.checked_add(d).is_some() {
                self.set_duration_seconds_at(secs, now);
            }
            assert(set_secs_now(old(self)@, self@, secs as int, now@));
        } else {
            let origin = Instant::from_origin(Duration::zero());
            self.set_duration_seconds_at(secs, origin);
            assert(set_secs_now(old(self)@, self@, secs as int, origin@));
        }
    }

    /// Stops and clears all flags, returning the timer to the stopped
    /// state; unlike [`reset`](Self::reset) the duration is kept.
    pub fn stop(&mut self)
        ensures
            final(self)@ == stop_spec(old(self)@),
    {
        proof {
            use_type_invariant(&*self);
        }
        self.set_state(self.duration, self.initial_duration, None, false, false, false);
    }

    /// Whether the countdown reached zero at `now` while running. After
    /// [`finish`](Self::finish) this is false again, since running is
    /// cleared.
    pub fn has_expired_at(&self, now: Instant) -> (b: bool)
        ensures
            b == expired_spec(self@, now@),
    {
        self.is_running && self.remaining_at(now).is_zero()
    }

    /// Whether the countdown has reached zero while running, read on the
    /// timer's clock. Used by the event loop to detect completion.
    pub fn has_expired(&self) -> (b: bool)
        ensures
            b ==> self@.is_running,
            exists|now: nat| #[trigger] expired_spec(self@, now) == b,
            self@.is_running ==> exists|now: nat|
                #![trigger expired_spec(self@, now)]
                self.clock().reads(now) && expired_spec(self@, now) == b,
    {
        if self.is_running {
            self.has_expired_at(self.clock.now())
        } else {
            assert(expired_spec(self@, 0) == false);
            false
        }
    }

    /// The held duration.
    pub fn duration(&self) -> (d: Duration)
        ensures
            d@ == self@.duration,
    {
        self.duration
    }

    /// The duration the timer had when it was last started with a nonzero
    /// duration, or made.
    pub fn initial_duration(&self) -> (d: Duration)
        ensures
            d@ == self@.initial_duration,
    {
        self.initial_duration
    }

    /// The end time of the countdown, set while it runs.
    pub fn end_time(&self) -> (e: Option<Instant>)
        ensures
            e matches Some(i) ==> self@.end_time == Some(i@),
            e is None ==> self@.end_time is None,
    {
        self.end_time
    }

    /// Whether the countdown runs.
    pub fn is_running(&self) -> (b: bool)
        ensures
            b == self@.is_running,
    {
        self.is_running
    }

    /// Whether the countdown is paused.
    pub fn is_paused(&self) -> (b: bool)
        ensures
            b == self@.is_paused,
    {
        self.is_paused
    }

    /// Whether the countdown finished.
    pub fn is_finished(&self) -> (b: bool)
        ensures
            b == self@.is_finished,
    {
        self.is_finished
    }
}

} // verus!

//! The decisions of the clock's event loop: what a key press does, what a
//! tick of the loop does, how the alert flashes, and what each mode shows.
//!
//! The loop itself (reading keys, drawing, sleeping) runs outside; it hands
//! each event to an [`App`] together with the point in time at which it
//! happened, read on the app's [`Clock`].

use vstd::prelude::*;

use crate::color::Color;
use crate::config::{AppConfig, DefaultMode};
use crate::display::{blink_on, blink_on_spec, lap_text, stopwatch_text_spec};
use crate::font::LargeFont;
use crate::notification::{Notifier, SystemNotifier};
use crate::stopwatch::{
    current_elapsed_spec, elapsed_fits, stopwatch_new, sw_lap_spec, sw_pause_spec,
    sw_reset_spec, sw_start_spec, Stopwatch, StopwatchView,
};
use crate::time::{
    sub_or_zero, Clock, Duration, Instant, MAX_NANOS, NANOS_PER_MILLI, NANOS_PER_SEC,
};
use crate::timer::{
    expired_spec, finish_spec, lemma_adjust_round_trip, lemma_finished_not_expired, pause_spec,
    remaining_spec, reset_spec, set_secs_fits, set_secs_spec, shift_fits, shifted_secs,
    start_spec, timer_made, CountdownTimer, TimerView,
};

verus! {

/// What the clock shows.
#[derive(Clone, Copy, Debug, PartialEq, Eq, Structural)]
pub enum AppMode {
    Time,
    Countdown,
    Stopwatch,
}

/// A key, as far as the clock tells keys apart.
#[derive(Clone, Copy, Debug, PartialEq, Eq, Structural)]
pub enum KeyCode {
    Char(char),
    Up,
    Down,
    Left,
    Right,
    Esc,
    Other,
}

/// A key event: the key, whether Control was held, and whether the key
/// went down (rather than up or repeating).
#[derive(Clone, Copy, Debug, PartialEq, Eq, Structural)]
pub struct KeyInput {
    pub code: KeyCode,
    pub ctrl: bool,
    pub press: bool,
}

/// The mode in which the clock starts for a configured default mode.
pub open spec fn start_mode(m: DefaultMode) -> AppMode {
    match m {
        DefaultMode::Time => AppMode::Time,
        DefaultMode::Countdown => AppMode::Countdown,
        DefaultMode::Stopwatch => AppMode::Stopwatch,
    }
}

/// The state of an [`App`] that its decisions change, as plain values;
/// points in time in nanoseconds since the origin of the app's clock.
pub struct AppState {
    pub should_quit: bool,
    pub mode: AppMode,
    pub timer: TimerView,
    pub stopwatch: StopwatchView,
    pub use_24h_format: bool,
    pub flash_start: Option<nat>,
}

/// The clock: its mode, countdown, stopwatch, settings and alert.
pub struct App<N: Notifier> {
    pub should_quit: bool,
    pub font: LargeFont,
    pub mode: AppMode,
    pub timer: CountdownTimer,
    pub stopwatch: Stopwatch,
    pub use_24h_format: bool,
    pub flash_start_time: Option<Instant>,
    pub notifier: N,
    pub config: AppConfig,
    pub clock: Clock,
}

/// The shift of the countdown, in seconds, that an arrow key makes: a
/// minute up or down, a second left or right.
pub open spec fn arrow_shift(code: KeyCode) -> Option<int> {
    match code {
        KeyCode::Up => Some(60),
        KeyCode::Down => Some(-60),
        KeyCode::Left => Some(-1),
        KeyCode::Right => Some(1),
        _ => None,
    }
}

/// An arrow key at `now`: in the countdown mode it moves the countdown's
/// duration; otherwise, and for any other key, nothing changes.
pub open spec fn arrow_step(s: AppState, code: KeyCode, now: nat) -> AppState {
    match arrow_shift(code) {
        Some(delta) if s.mode == AppMode::Countdown => AppState {
            timer: set_secs_spec(s.timer, shifted_secs(s.timer, delta), now),
            ..s
        },
        _ => s,
    }
}

/// Whether an arrow key at `now` keeps the countdown's arithmetic in
/// range.
pub open spec fn arrow_fits(s: AppState, code: KeyCode, now: nat) -> bool {
    match arrow_shift(code) {
        Some(delta) if s.mode == AppMode::Countdown => {
            &&& shift_fits(s.timer, delta)
            &&& set_secs_fits(s.timer, shifted_secs(s.timer, delta), now)
        },
        _ => true,
    }
}

/// A key event at `now`. Only a key going down acts:
/// - `q`, and `c` with Control, quit;
/// - `c`, `t` and `s` switch to the countdown, time and stopwatch modes;
/// - `h` switches between the 12- and 24-hour clock, in the time mode;
/// - `l` records the stopwatch's time as its lap, in the stopwatch mode;
/// - `r` resets the countdown or the stopwatch, in its mode;
/// - space pauses the countdown or the stopwatch where it runs and starts
///   it where it does not, in its mode;
/// - the arrow keys move the countdown (see [`arrow_step`]).
pub open spec fn key_step(s: AppState, key: KeyInput, now: nat) -> AppState {
    if !key.press {
        s
    } else {
        match key.code {
            KeyCode::Char(c) => {
                if c == 'q' {
                    AppState { should_quit: true, ..s }
                } else if c == 'c' && key.ctrl {
                    AppState { should_quit: true, ..s }
                } else if c == 'c' {
                    AppState { mode: AppMode::Countdown, ..s }
                } else if c == 't' {
                    AppState { mode: AppMode::Time, ..s }
                } else if c == 'h' {
                    if s.mode == AppMode::Time {
                        AppState { use_24h_format: !s.use_24h_format, ..s }
                    } else {
                        s
                    }
                } else if c == 's' {
                    AppState { mode: AppMode::Stopwatch, ..s }
                } else if c == 'l' {
                    if s.mode == AppMode::Stopwatch {
                        AppState {
                            stopwatch: sw_lap_spec(
                                s.stopwatch,
                                current_elapsed_spec(s.stopwatch, now),
                            ),
                            ..s
                        }
                    } else {
                        s
                    }
                } else if c == 'r' {
                    match s.mode {
                        AppMode::Countdown => AppState { timer: reset_spec(s.timer), ..s },
                        AppMode::Stopwatch => AppState {
                            stopwatch: sw_reset_spec(s.stopwatch),
                            ..s
                        },
                        AppMode::Time => s,
                    }
                } else if c == ' ' {
                    match s.mode {
                        AppMode::Countdown => AppState {
                            timer: if s.timer.is_running {
                                pause_spec(s.timer, now)
                            } else {
                                start_spec(s.timer, now)
                            },
                            ..s
                        },
                        AppMode::Stopwatch => AppState {
                            stopwatch: if s.stopwatch.is_running {
                                sw_pause_spec(s.stopwatch, now)
                            } else {
                                sw_start_spec(s.stopwatch, now)
                            },
                            ..s
                        },
                        AppMode::Time => s,
                    }
                } else {
                    s
                }
            },
            code => arrow_step(s, code, now),
        }
    }
}

/// Whether a key event at `now` keeps the arithmetic of the countdown and
/// the stopwatch in range.
pub open spec fn key_fits(s: AppState, key: KeyInput, now: nat) -> bool {
    key.press ==> match key.code {
        KeyCode::Char(c) => {
            &&& (c == 'l' && s.mode == AppMode::Stopwatch ==> elapsed_fits(s.stopwatch, now))
            &&& (c == ' ' && s.mode == AppMode::Countdown && !s.timer.is_running ==> now
                + remaining_spec(s.timer, now) <= MAX_NANOS)
            &&& (c == ' ' && s.mode == AppMode::Stopwatch ==> elapsed_fits(s.stopwatch, now))
        },
        code => arrow_fits(s, code, now),
    }
}

/// The notification shown when a countdown is over: its title and body.
pub open spec fn completion_notice() -> (Seq<char>, Seq<char>) {
    ("Countdown Timer Complete"@, "00:00 - Timer has finished"@)
}

/// How long the alert flashes once a countdown is over, in milliseconds.
pub const FLASH_MILLIS: u128 = 1250;

/// How long each flash of the alert, and each pause between flashes,
/// lasts, in milliseconds.
pub const FLASH_PHASE_MILLIS: u128 = 250;

/// How often the loop ticks, in milliseconds.
pub const TICK_MILLIS: u64 = 200;

/// Whether the alert shows `ms` milliseconds after it began: it flashes
/// for [`FLASH_MILLIS`], on and off in phases of [`FLASH_PHASE_MILLIS`],
/// starting on.
pub open spec fn flash_on(ms: nat) -> bool {
    ms < FLASH_MILLIS && (ms / (FLASH_PHASE_MILLIS as nat)) % 2 == 0
}

/// The whole milliseconds from `start` to `now`, or zero where `now` is
/// the earlier.
pub open spec fn millis_since(start: nat, now: nat) -> nat {
    sub_or_zero(now, start) / (NANOS_PER_MILLI as nat)
}

/// The key help shown in each mode; in the countdown and stopwatch modes
/// it depends on whether that one runs.
pub open spec fn menu_spec(mode: AppMode, countdown_running: bool, stopwatch_running: bool) -> Seq<char> {
    match mode {
        AppMode::Time => "q: Quit | c: Countdown | s: Stopwatch | h: 12/24h"@,
        AppMode::Countdown => if countdown_running {
            "q: Quit | t: Time | s: Stopwatch | Space: Pause | r: Reset"@
        } else {
            "q: Quit | t: Time | s: Stopwatch | Space: Start | r: Reset | ↑↓: Min | ←→: Sec"@
        },
        AppMode::Stopwatch => if stopwatch_running {
            "q: Quit | t: Time | c: Countdown | Space: Pause | r: Reset | l: Lap"@
        } else {
            "q: Quit | t: Time | c: Countdown | Space: Start | r: Reset | l: Lap"@
        },
    }
}

/// The format of the time of day: `HH:MM:SS` on the 24-hour clock,
/// `HH:MM:SS AM` on the 12-hour clock (as `strftime` patterns).
pub open spec fn time_format_spec(use_24h: bool) -> Seq<char> {
    if use_24h {
        "%H:%M:%S"@
    } else {
        "%I:%M:%S %p"@
    }
}

/// How long to wait for a key before the next tick is due: the tick
/// period less the time since the last tick, or nothing where that time is
/// longer.
pub fn poll_timeout(last_tick: Instant, now: Instant) -> (d: Duration)
    ensures
        d@ == sub_or_zero((TICK_MILLIS * NANOS_PER_MILLI) as nat, sub_or_zero(now@, last_tick@)),
{
    Duration::from_millis(TICK_MILLIS).saturating_sub(now.saturating_duration_since(last_tick))
}

/// Whether a tick is due: a whole tick period has passed since the last.
pub fn tick_due(last_tick: Instant, now: Instant) -> (due: bool)
    ensures
        due == (sub_or_zero(now@, last_tick@) >= TICK_MILLIS * NANOS_PER_MILLI),
{
    Duration::from_millis(TICK_MILLIS).le(&now.saturating_duration_since(last_tick))
}

/// The format of the time of day (see [`time_format_spec`]).
pub fn time_format(use_24h: bool) -> (f: &'static str)
    ensures
        f@ == time_format_spec(use_24h),
{
    if use_24h {
        "%H:%M:%S"
    } else {
        "%I:%M:%S %p"
    }
}

/// Whether an arrow key at `now`, a point within the clock's range, took
/// `before` to `after`: it is handled exactly where the arithmetic stays in
/// range ([`arrow_fits`]), as [`arrow_step`] says; otherwise nothing
/// changes.
pub open spec fn arrow_handled(
    before: AppState,
    after: AppState,
    key: KeyCode,
    now: nat,
    handled: bool,
) -> bool {
    &&& now <= MAX_NANOS
    &&& handled == arrow_fits(before, key, now)
    &&& after == if handled {
        arrow_step(before, key, now)
    } else {
        before
    }
}

/// Whether a key event at `now`, a point within the clock's range, took
/// `before` to `after`: it is handled exactly where the arithmetic stays in
/// range ([`key_fits`]), as [`key_step`] says; otherwise nothing changes.
pub open spec fn key_handled(
    before: AppState,
    after: AppState,
    key: KeyInput,
    now: nat,
    handled: bool,
) -> bool {
    &&& now <= MAX_NANOS
    &&& handled == key_fits(before, key, now)
    &&& after == if handled {
        key_step(before, key, now)
    } else {
        before
    }
}

/// A key that is released or repeating does nothing.
pub proof fn lemma_only_presses_act(s: AppState, key: KeyInput, now: nat)
    requires
        !key.press,
    ensures
        key_step(s, key, now) == s,
        key_fits(s, key, now),
{
}

/// `c`, `t` and `s` switch the mode and nothing else: a running countdown
/// or stopwatch goes on running in the background.
pub proof fn lemma_mode_keys_keep_counting(s: AppState, key: KeyInput, now: nat)
    requires
        key.press,
        key.code == KeyCode::Char('t') || key.code == KeyCode::Char('s') || (key.code
            == KeyCode::Char('c') && !key.ctrl),
    ensures
        key_step(s, key, now) == (AppState {
            mode: if key.code == KeyCode::Char('t') {
                AppMode::Time
            } else if key.code == KeyCode::Char('s') {
                AppMode::Stopwatch
            } else {
                AppMode::Countdown
            },
            ..s
        }),
{
}

/// `q`, and `c` with Control, quit and change nothing else.
pub proof fn lemma_quit_keys(s: AppState, key: KeyInput, now: nat)
    requires
        key.press,
        key.code == KeyCode::Char('q') || (key.code == KeyCode::Char('c') && key.ctrl),
    ensures
        key_step(s, key, now) == (AppState { should_quit: true, ..s }),
{
}

/// In the time mode, `h` twice gives back the clock format it began with;
/// in the other modes `h` does nothing.
pub proof fn lemma_format_toggle(s: AppState, key: KeyInput, now1: nat, now2: nat)
    requires
        key.press,
        key.code == KeyCode::Char('h'),
    ensures
        s.mode == AppMode::Time ==> key_step(key_step(s, key, now1), key, now2) == s,
        s.mode == AppMode::Time ==> key_step(s, key, now1).use_24h_format != s.use_24h_format,
        s.mode != AppMode::Time ==> key_step(s, key, now1) == s,
{
}

/// Outside the countdown mode the arrow keys do nothing.
pub proof fn lemma_arrows_only_in_countdown(s: AppState, code: KeyCode, now: nat)
    requires
        s.mode != AppMode::Countdown,
    ensures
        arrow_step(s, code, now) == s,
        arrow_fits(s, code, now),
{
}

/// In the countdown mode, on a countdown of whole seconds, up then down
/// (and right then left) give back its duration, as long as it does not
/// reach zero on the way.
pub proof fn lemma_arrow_round_trip(s: AppState, now1: nat, now2: nat, up: KeyCode, down: KeyCode)
    requires
        s.mode == AppMode::Countdown,
        s.timer.wf(),
        (up == KeyCode::Up && down == KeyCode::Down) || (up == KeyCode::Right && down
            == KeyCode::Left),
        s.timer.duration % (NANOS_PER_SEC as nat) == 0,
        s.timer.duration / (NANOS_PER_SEC as nat) <= i64::MAX - 60,
    ensures
        arrow_step(arrow_step(s, up, now1), down, now2).timer.duration == s.timer.duration,
        arrow_step(arrow_step(s, up, now1), down, now2).mode == AppMode::Countdown,
{
    let delta = arrow_shift(up).unwrap();
    lemma_adjust_round_trip(s.timer, delta, now1, now2);
}

/// Once a tick has found the countdown run out, no later tick finds it so
/// again: the completion is reported once.
pub proof fn lemma_completion_reported_once(t: TimerView, now: nat, later: nat)
    requires
        expired_spec(t, now),
    ensures
        !expired_spec(finish_spec(t), later),
{
    lemma_finished_not_expired(t, later);
}

/// Space handled at `now` on a stopped countdown starts it with its whole
/// duration left at that moment, counting down from there; on a stopped
/// stopwatch it starts counting from that moment, with the accrued time.
pub proof fn lemma_space_starts_at_the_press(s: AppState, now: nat, later: nat)
    requires
        s.timer.wf(),
        s.stopwatch.wf(),
        now <= later,
    ensures
        ({
            let k = KeyInput { code: KeyCode::Char(' '), ctrl: false, press: true };
            &&& s.mode == AppMode::Countdown && !s.timer.is_running ==> {
                &&& remaining_spec(key_step(s, k, now).timer, now) == s.timer.duration
                &&& remaining_spec(key_step(s, k, later).timer, later) == s.timer.duration
                &&& remaining_spec(key_step(s, k, now).timer, later) == sub_or_zero(
                    s.timer.duration,
                    (later - now) as nat,
                )
            }
            &&& s.mode == AppMode::Stopwatch && !s.stopwatch.is_running ==> {
                &&& current_elapsed_spec(key_step(s, k, now).stopwatch, now)
                    == s.stopwatch.elapsed_time
                &&& current_elapsed_spec(key_step(s, k, now).stopwatch, later)
                    == s.stopwatch.elapsed_time + (later - now)
            }
        }),
{
}

/// A tick finds a running countdown finished only where nothing is left
/// at the tick's moment: with time left it keeps running.
pub proof fn lemma_tick_needs_nothing_left(t: TimerView, now: nat)
    ensures
        expired_spec(t, now) <==> t.is_running && remaining_spec(t, now) == 0,
        t.is_running && remaining_spec(t, now) > 0 ==> !expired_spec(t, now),
{
}

/// The alert that began at `start` shows, at a point `now` from then on,
/// on and off in phases of [`FLASH_PHASE_MILLIS`] during the first
/// [`FLASH_MILLIS`], and never from `start` plus [`FLASH_MILLIS`]
/// milliseconds on.
pub proof fn lemma_flash_over_after_its_time(start: nat, now: nat)
    requires
        start <= now,
    ensures
        now >= start + FLASH_MILLIS * NANOS_PER_MILLI ==> !flash_on(millis_since(start, now))
            && millis_since(start, now) >= FLASH_MILLIS,
        now < start + FLASH_PHASE_MILLIS * NANOS_PER_MILLI ==> flash_on(millis_since(start, now)),
{
    let d = (now - start) as nat;
    if now >= start + FLASH_MILLIS * NANOS_PER_MILLI {
        assert(d / (NANOS_PER_MILLI as nat) >= FLASH_MILLIS) by (nonlinear_arith)
            requires
                d >= FLASH_MILLIS * NANOS_PER_MILLI,
        ;
    }
    if now < start + FLASH_PHASE_MILLIS * NANOS_PER_MILLI {
        assert(d / (NANOS_PER_MILLI as nat) < FLASH_PHASE_MILLIS) by (nonlinear_arith)
            requires
                d < FLASH_PHASE_MILLIS * NANOS_PER_MILLI,
        ;
    }
}

/// The alert is on as it begins and off from [`FLASH_MILLIS`] on.
pub proof fn lemma_flash_bounded(ms: nat)
    ensures
        flash_on(0),
        ms >= FLASH_MILLIS ==> !flash_on(ms),
{
}

/// The line beneath the countdown.
pub enum CountdownLine {
    /// The end time on the wall clock, written in `format` after `prefix`.
    EndsAt { prefix: &'static str, format: &'static str },
    /// A fixed text.
    Fixed(&'static str),
}

/// The line beneath the stopwatch.
pub enum StopwatchLine {
    /// The last lap, drawn large.
    Lap(String),
    /// A fixed text.
    Fixed(&'static str),
}

impl<N: Notifier> App<N> {
    /// The state that the app's decisions change.
    pub open spec fn state(&self) -> AppState {
        AppState {
            should_quit: self.should_quit,
            mode: self.mode,
            timer: self.timer@,
            stopwatch: self.stopwatch@,
            use_24h_format: self.use_24h_format,
            flash_start: match self.flash_start_time {
                Some(t) => Some(t@),
                None => None,
            },
        }
    }

    /// Whether `other` differs from this app at most in the state that the
    /// decisions change.
    pub open spec fn same_setup(&self, other: &Self) -> bool {
        &&& other.font == self.font
        &&& other.notifier == self.notifier
        &&& other.config == self.config
        &&& other.clock == self.clock
    }

    /// The point in time now, on the app's clock.
    pub fn now(&self) -> (t: Instant)
        ensures
            t@ <= MAX_NANOS,
            self.clock.reads(t@),
    {
        self.clock.now()
    }

    /// Gives the app another notifier, keeping everything else.
    pub fn with_notifier<M: Notifier>(self, notifier: M) -> (app: App<M>)
        ensures
            app.state() == self.state(),
            app.notifier == notifier,
            app.font == self.font,
            app.config == self.config,
            app.clock == self.clock,
    {
        App {
            should_quit: self.should_quit,
            font: self.font,
            mode: self.mode,
            timer: self.timer,
            stopwatch: self.stopwatch,
            use_24h_format: self.use_24h_format,
            flash_start_time: self.flash_start_time,
            notifier,
            config: self.config,
            clock: self.clock,
        }
    }

    /// Whether an arrow key at `now` keeps the countdown's arithmetic in
    /// range.
    pub fn arrow_key_fits_at(&self, key: KeyCode, now: Instant) -> (b: bool)
        ensures
            b == arrow_fits(self.state(), key, now@),
    {
        if self.mode != AppMode::Countdown {
            return true;
        }
        let delta: i64 = match key {
            KeyCode::Up => 60,
            KeyCode::Down => -60,
            KeyCode::Left => -1,
            KeyCode::Right => 1,
            _ => {
                return true;
            },
        };
        self.timer.shift_fits_at(delta, now)
    }

    /// An arrow key at `now`: in the countdown mode, up and down move the
    /// countdown by a minute, right and left by a second (a running
    /// countdown keeps running); otherwise nothing changes.
    pub fn handle_arrow_key_at(&mut self, key: KeyCode, now: Instant)
        requires
            arrow_fits(old(self).state(), key, now@),
        ensures
            final(self).state() == arrow_step(old(self).state(), key, now@),
            old(self).same_setup(&*final(self)),
    {
        if self.mode == AppMode::Countdown {
            match key {
                KeyCode::Up => self.timer.adjust_minutes_at(1, now),
                KeyCode::Down => self.timer.adjust_minutes_at(-1, now),
                KeyCode::Left => self.timer.adjust_seconds_at(-1, now),
                KeyCode::Right => self.timer.adjust_seconds_at(1, now),
                _ => {},
            }
        }
    }

    /// An arrow key now, on the app's clock. Where the countdown's
    /// arithmetic would leave its range, nothing changes and the result is
    /// false.
    pub fn handle_arrow_key(&mut self, key: KeyCode) -> (handled: bool)
        ensures
            exists|now: nat|
                #[trigger] arrow_handled(old(self).state(), final(self).state(), key, now, handled),
            exists|now: nat|
                #![trigger arrow_handled(old(self).state(), final(self).state(), key, now, handled)]
                old(self).clock.reads(now) && arrow_handled(
                    old(self).state(),
                    final(self).state(),
                    key,
                    now,
                    handled,
                ),
            old(self).same_setup(&*final(self)),
    {
        let now = self.clock.now();
        let handled = if self.arrow_key_fits_at(key, now) {
            self.handle_arrow_key_at(key, now);
            true
        } else {
            false
        };
        assert(arrow_handled(old(self).state(), self.state(), key, now@, handled));
        handled
    }

    /// Whether a key event at `now` keeps the arithmetic of the countdown
    /// and the stopwatch in range.
    pub fn key_event_fits_at(&self, key: KeyInput, now: Instant) -> (b: bool)
        ensures
            b == key_fits(self.state(), key, now@),
    {
        if !key.press {
            return true;
        }
        match key.code {
            KeyCode::Char(c) => {
                if c == 'l' && self.mode == AppMode::Stopwatch {
                    self.stopwatch.elapsed_fits_at(now)
                } else if c == ' ' && self.mode == AppMode::Countdown && !self.timer.is_running() {
                    now.checked_add(self.timer.remaining_at(now)).is_some()
                } else if c == ' ' && self.mode == AppMode::Stopwatch {
                    self.stopwatch.elapsed_fits_at(now)
                } else {
                    true
                }
            },
            code => self.arrow_key_fits_at(code, now),
        }
    }

    /// A key event at `now` (see [`key_step`]).
    pub fn handle_key_event_at(&mut self, key: KeyInput, now: Instant)
        requires
            key_fits(old(self).state(), key, now@),
        ensures
            final(self).state() == key_step(old(self).state(), key, now@),
            old(self).same_setup(&*final(self)),
    {
        if !key.press {
            return;
        }
        match key.code {
            KeyCode::Char(c) => {
                if c == 'q' {
                    self.should_quit = true;
                } else if c == 'c' && key.ctrl {
                    self.should_quit = true;
                } else if c == 'c' {
                    self.mode = AppMode::Countdown;
                } else if c == 't' {
                    self.mode = AppMode::Time;
                } else if c == 'h' {
                    if self.mode == AppMode::Time {
                        self.use_24h_format = !self.use_24h_format;
                    }
                } else if c == 's' {
                    self.mode = AppMode::Stopwatch;
                } else if c == 'l' {
                    if self.mode == AppMode::Stopwatch {
                        let lap_time = self.stopwatch.current_elapsed_at(now);
                        self.stopwatch.add_lap(lap_time);
                    }
                } else if c == 'r' {
                    match self.mode {
                        AppMode::Countdown => self.timer.reset(),
                        AppMode::Stopwatch => self.stopwatch.reset(),
                        AppMode::Time => {},
                    }
                } else if c == ' ' {
                    match self.mode {
                        AppMode::Countdown => {
                            if self.timer.is_running() {
                                self.timer.pause_at(now);
                            } else {
                                self.timer.start_at(now);
                            }
                        },
                        AppMode::Stopwatch => {
                            if self.stopwatch.is_running() {
                                self.stopwatch.pause_at(now);
                            } else {
                                self.stopwatch.start_at(now);
                            }
                        },
                        AppMode::Time => {},
                    }
                }
            },
            code => self.handle_arrow_key_at(code, now),
        }
    }

    /// A key event now, on the app's clock. Where the arithmetic of the
    /// countdown or the stopwatch would leave its range, nothing changes
    /// and the result is false.
    pub fn handle_key_event(&mut self, key: KeyInput) -> (handled: bool)
        ensures
            exists|now: nat|
                #[trigger] key_handled(old(self).state(), final(self).state(), key, now, handled),
            exists|now: nat|
                #![trigger key_handled(old(self).state(), final(self).state(), key, now, handled)]
                old(self).clock.reads(now) && key_handled(
                    old(self).state(),
                    final(self).state(),
                    key,
                    now,
                    handled,
                ),
            old(self).same_setup(&*final(self)),
    {
        let now = self.clock.now();
        let handled = if self.key_event_fits_at(key, now) {
            self.handle_key_event_at(key, now);
            true
        } else {
            false
        };
        assert(key_handled(old(self).state(), self.state(), key, now@, handled));
        handled
    }

    /// A shutdown signal checked by the loop: where one arrived, the clock
    /// quits; nothing else changes.
    pub fn handle_shutdown(&mut self, signalled: bool)
        ensures
            final(self).state() == (AppState {
                should_quit: old(self).should_quit || signalled,
                ..old(self).state()
            }),
            old(self).same_setup(&*final(self)),
    {
        if signalled {
            self.should_quit = true;
        }
    }

    /// A tick of the loop at `now`. Where the countdown ran out, the alert
    /// begins to flash, the countdown is marked finished, and the notifier
    /// is asked, once, to show the [`completion_notice`]; the result says
    /// whether that happened.
    /// Otherwise nothing changes.
    pub fn on_tick_at(&mut self, now: Instant) -> (finished: bool)
        ensures
            finished == expired_spec(old(self).timer@, now@),
            finished ==> final(self).state() == (AppState {
                timer: finish_spec(old(self).timer@),
                flash_start: Some(now@),
                ..old(self).state()
            }),
            finished ==> final(self).notifier.shows() == old(self).notifier.shows()
                && final(self).notifier.sent() == if old(self).notifier.shows() {
                old(self).notifier.sent().push(completion_notice())
            } else {
                old(self).notifier.sent()
            },
            !finished ==> final(self).state() == old(self).state() && final(self).notifier
                == old(self).notifier,
            final(self).font == old(self).font,
            final(self).config == old(self).config,
            final(self).clock == old(self).clock,
    {
        if self.timer.has_expired_at(now) {
            self.flash_start_time = Some(now);
            self.timer.finish();
            self.notifier.send_notification("Countdown Timer Complete", "00:00 - Timer has finished");
            true
        } else {
            false
        }
    }

    /// A tick of the loop now, on the app's clock (see
    /// [`on_tick_at`](Self::on_tick_at)).
    pub fn on_tick(&mut self) -> (finished: bool)
        ensures
            exists|now: nat|
                #![trigger expired_spec(old(self).timer@, now)]
                old(self).clock.reads(now) && finished == expired_spec(old(self).timer@, now) && (
                finished ==> final(self).state()
                    == (AppState {
                    timer: finish_spec(old(self).timer@),
                    flash_start: Some(now),
                    ..old(self).state()
                })),
            finished ==> final(self).notifier.shows() == old(self).notifier.shows()
                && final(self).notifier.sent() == if old(self).notifier.shows() {
                old(self).notifier.sent().push(completion_notice())
            } else {
                old(self).notifier.sent()
            },
            !finished ==> final(self).state() == old(self).state() && final(self).notifier
                == old(self).notifier,
            final(self).font == old(self).font,
            final(self).config == old(self).config,
            final(self).clock == old(self).clock,
    {
        let now = self.clock.now();
        self.on_tick_at(now)
    }

    /// Whether the alert shows at `now`; once its time is over, the alert
    /// is cleared.
    pub fn flash_at(&mut self, now: Instant) -> (alert: bool)
        ensures
            match old(self).flash_start_time {
                None => !alert && final(self).state() == old(self).state(),
                Some(start) => {
                    let ms = millis_since(start@, now@);
                    &&& alert == flash_on(ms)
                    &&& final(self).state() == if ms < FLASH_MILLIS {
                        old(self).state()
                    } else {
                        AppState { flash_start: None, ..old(self).state() }
                    }
                },
            },
            old(self).same_setup(&*final(self)),
    {
        match self.flash_start_time {
            None => false,
            Some(start) => {
                let elapsed = now.saturating_duration_since(start).as_millis();
                if elapsed < FLASH_MILLIS {
                    (elapsed / FLASH_PHASE_MILLIS) % 2 == 0
                } else {
                    self.flash_start_time = None;
                    false
                }
            },
        }
    }

    /// Whether the alert shows now, on the app's clock (see
    /// [`flash_at`](Self::flash_at)).
    pub fn flash(&mut self) -> (alert: bool)
        ensures
            match old(self).flash_start_time {
                None => !alert && final(self).state() == old(self).state(),
                Some(start) => exists|now: nat| {
                    let ms = #[trigger] millis_since(start@, now);
                    &&& old(self).clock.reads(now)
                    &&& alert == flash_on(ms)
                    &&& final(self).state() == if ms < FLASH_MILLIS {
                        old(self).state()
                    } else {
                        AppState { flash_start: None, ..old(self).state() }
                    }
                },
            },
            old(self).same_setup(&*final(self)),
    {
        let now = self.clock.now();
        self.flash_at(now)
    }

    /// The color of the countdown: the running color while it runs or is
    /// paused, the idle color otherwise.
    pub fn countdown_color(&self) -> (c: Color)
        ensures
            c == if self.timer@.is_running || self.timer@.is_paused {
                self.config.colors.countdown_running_color
            } else {
                self.config.colors.countdown_idle_color
            },
    {
        if self.timer.is_running() || self.timer.is_paused() {
            self.config.colors.countdown_running_color
        } else {
            self.config.colors.countdown_idle_color
        }
    }

    /// Whether the countdown shows at `wall_millis` milliseconds of the
    /// wall clock: a paused countdown blinks, any other shows.
    pub fn countdown_visible(&self, wall_millis: i64) -> (v: bool)
        ensures
            v == if !self.timer@.is_running && self.timer@.is_paused {
                blink_on_spec(wall_millis as int)
            } else {
                true
            },
    {
        if self.timer.is_running() {
            true
        } else if self.timer.is_paused() {
            blink_on(wall_millis)
        } else {
            true
        }
    }

    /// The color of the stopwatch: the running color while it runs, the
    /// idle color otherwise.
    pub fn stopwatch_color(&self) -> (c: Color)
        ensures
            c == if self.stopwatch@.is_running {
                self.config.colors.stopwatch_running_color
            } else {
                self.config.colors.stopwatch_idle_color
            },
    {
        if self.stopwatch.is_running() {
            self.config.colors.stopwatch_running_color
        } else {
            self.config.colors.stopwatch_idle_color
        }
    }

    /// Whether the stopwatch shows at `wall_millis` milliseconds of the
    /// wall clock: a stopwatch that is paused with time on it blinks, any
    /// other shows.
    pub fn stopwatch_visible(&self, wall_millis: i64) -> (v: bool)
        ensures
            v == if !self.stopwatch@.is_running && self.stopwatch@.elapsed_time > 0 {
                blink_on_spec(wall_millis as int)
            } else {
                true
            },
    {
        if self.stopwatch.is_running() {
            true
        } else if !self.stopwatch.elapsed_time().is_zero() {
            blink_on(wall_millis)
        } else {
            true
        }
    }

    /// The line beneath the countdown: while it runs, its end time on the
    /// wall clock after "Ends at: ", in the 12-hour format whatever the
    /// clock's format; otherwise "Paused".
    pub fn countdown_line(&self) -> (l: CountdownLine)
        ensures
            match l {
                CountdownLine::EndsAt { prefix, format } => self.timer@.is_running && prefix@
                    == "Ends at: "@ && format@ == time_format_spec(false),
                CountdownLine::Fixed(t) => !self.timer@.is_running && t@ == "Paused"@,
            },
    {
        if self.timer.is_running() {
            CountdownLine::EndsAt { prefix: "Ends at: ", format: time_format(false) }
        } else {
            CountdownLine::Fixed("Paused")
        }
    }

    /// The line beneath the stopwatch: the last lap, large, where one was
    /// recorded; otherwise "Stopwatch".
    pub fn stopwatch_line(&self) -> (l: StopwatchLine)
        ensures
            match l {
                StopwatchLine::Lap(text) => self.stopwatch@.last_lap matches Some(lap) && text@
                    == stopwatch_text_spec(lap),
                StopwatchLine::Fixed(t) => self.stopwatch@.last_lap is None && t@ == "Stopwatch"@,
            },
    {
        match self.stopwatch.last_lap_elapsed() {
            Some(lap) => StopwatchLine::Lap(lap_text(lap)),
            None => StopwatchLine::Fixed("Stopwatch"),
        }
    }

    /// The key help for the current mode.
    pub fn menu_text(&self) -> (t: &'static str)
        ensures
            t@ == menu_spec(self.mode, self.timer@.is_running, self.stopwatch@.is_running),
    {
        match self.mode {
            AppMode::Time => "q: Quit | c: Countdown | s: Stopwatch | h: 12/24h",
            AppMode::Countdown => {
                if self.timer.is_running() {
                    "q: Quit | t: Time | s: Stopwatch | Space: Pause | r: Reset"
                } else {
                    "q: Quit | t: Time | s: Stopwatch | Space: Start | r: Reset | ↑↓: Min | ←→: Sec"
                }
            },
            AppMode::Stopwatch => {
                if self.stopwatch.is_running() {
                    "q: Quit | t: Time | c: Countdown | Space: Pause | r: Reset | l: Lap"
                } else {
                    "q: Quit | t: Time | c: Countdown | Space: Start | r: Reset | l: Lap"
                }
            },
        }
    }
}

impl App<SystemNotifier> {
    /// The clock as configured: in the configured mode, with a stopped
    /// countdown of the configured length, a stopwatch at zero, the
    /// configured clock format, no alert, and desktop notifications. The
    /// countdown and the stopwatch read the app's clock.
    pub fn new(config: AppConfig) -> (app: Self)
        ensures
            app.state() == (AppState {
                should_quit: false,
                mode: start_mode(config.default_mode),
                timer: timer_made(config.countdown_default_seconds as nat),
                stopwatch: stopwatch_new(),
                use_24h_format: config.use_24h_format,
                flash_start: None,
            }),
            app.config == config,
            app.notifier.is_enabled(),
            app.notifier.requests() == Seq::<(Seq<char>, Seq<char>, Seq<char>)>::empty(),
            app.notifier.sent() == Seq::<(Seq<char>, Seq<char>)>::empty(),
    {
        let mode = match config.default_mode {
            DefaultMode::Time => AppMode::Time,
            DefaultMode::Countdown => AppMode::Countdown,
            DefaultMode::Stopwatch => AppMode::Stopwatch,
        };
        let clock = Clock::new();
        App {
            should_quit: false,
            font: LargeFont::new(),
            mode,
            timer: CountdownTimer::with_duration_on(config.countdown_default_seconds, clock),
            stopwatch: Stopwatch::new_on(clock),
            use_24h_format: config.use_24h_format,
            flash_start_time: None,
            notifier: SystemNotifier::new(),
            config,
            clock,
        }
    }
}

} // verus!

//! The texts the clock shows: the countdown, the stopwatch and its lap as
//! zero-padded decimal fields, the key help, the clock format, and the
//! blinking of a paused display.

use vstd::prelude::*;

use crate::time::{Duration, NANOS_PER_MILLI, NANOS_PER_SEC};
use crate::ui::push_char;

verus! {

/// The decimal digit for `d`, below ten.
pub open spec fn digit_char(d: nat) -> char {
    if d == 0 {
        '0'
    } else if d == 1 {
        '1'
    } else if d == 2 {
        '2'
    } else if d == 3 {
        '3'
    } else if d == 4 {
        '4'
    } else if d == 5 {
        '5'
    } else if d == 6 {
        '6'
    } else if d == 7 {
        '7'
    } else if d == 8 {
        '8'
    } else {
        '9'
    }
}

/// `n` in decimal, without leading zeros.
pub open spec fn decimal(n: nat) -> Seq<char>
    decreases n,
{
    if n < 10 {
        seq![digit_char(n)]
    } else {
        decimal(n / 10).push(digit_char(n % 10))
    }
}

/// `n` in decimal, padded with a zero to at least two digits.
pub open spec fn two_digits(n: nat) -> Seq<char> {
    if n < 10 {
        seq!['0', digit_char(n)]
    } else {
        decimal(n)
    }
}

/// `h:m:s`, each field in at least two digits.
pub open spec fn hms(h: nat, m: nat, s: nat) -> Seq<char> {
    two_digits(h) + seq![':'] + two_digits(m) + seq![':'] + two_digits(s)
}

/// `m:s.c`, each field in at least two digits.
pub open spec fn ms_cs(m: nat, s: nat, c: nat) -> Seq<char> {
    two_digits(m) + seq![':'] + two_digits(s) + seq!['.'] + two_digits(c)
}

/// The whole seconds of a span of `nanos` nanoseconds.
pub open spec fn whole_secs(nanos: nat) -> nat {
    nanos / (NANOS_PER_SEC as nat)
}

/// The hundredths of a second, below one second, of a span of `nanos`
/// nanoseconds.
pub open spec fn centis(nanos: nat) -> nat {
    ((nanos % (NANOS_PER_SEC as nat)) / (NANOS_PER_MILLI as nat)) / 10
}

/// The countdown as shown: `HH:MM:SS` from one hour up, `MM:SS` below.
pub open spec fn countdown_text_spec(nanos: nat) -> Seq<char> {
    let t = whole_secs(nanos);
    let h = t / 3600;
    let m = (t % 3600) / 60;
    let s = t % 60;
    if h > 0 {
        hms(h, m, s)
    } else {
        two_digits(m) + seq![':'] + two_digits(s)
    }
}

/// The stopwatch as shown: `HH:MM:SS` from one hour up, `MM:SS.cs` with
/// hundredths of a second below.
pub open spec fn stopwatch_text_spec(nanos: nat) -> Seq<char> {
    let t = whole_secs(nanos);
    let h = t / 3600;
    if h > 0 {
        hms(h, (t % 3600) / 60, t % 60)
    } else {
        ms_cs((t % 3600) / 60, t % 60, centis(nanos))
    }
}

fn digit_of(d: u64) -> (c: char)
    requires
        d < 10,
    ensures
        c == digit_char(d as nat),
{
    if d == 0 {
        '0'
    } else if d == 1 {
        '1'
    } else if d == 2 {
        '2'
    } else if d == 3 {
        '3'
    } else if d == 4 {
        '4'
    } else if d == 5 {
        '5'
    } else if d == 6 {
        '6'
    } else if d == 7 {
        '7'
    } else if d == 8 {
        '8'
    } else {
        '9'
    }
}

/// Appends `n` in decimal.
fn push_decimal(s: &mut String, n: u64)
    ensures
        final(s)@ == old(s)@ + decimal(n as nat),
    decreases n,
{
    if n >= 10 {
        push_decimal(s, n / 10);
    }
    push_char(s, digit_of(n % 10));
    proof {
        if n < 10 {
            assert(decimal(n as nat) == seq![digit_char(n as nat)]);
        }
    }
}

/// Appends `n` in decimal, padded with a zero to at least two digits.
fn push_two_digits(s: &mut String, n: u64)
    ensures
        final(s)@ == old(s)@ + two_digits(n as nat),
{
    if n < 10 {
        push_char(s, '0');
    }
    push_decimal(s, n);
}

/// The countdown as shown: `HH:MM:SS` from one hour up, `MM:SS` below.
pub fn countdown_text(remaining: Duration) -> (text: String)
    ensures
        text@ == countdown_text_spec(remaining@),
{
    let t = remaining.as_secs();
    let h = t / 3600;
    let m = (t % 3600) / 60;
    let s = t % 60;
    let mut text = String::new();
    if h > 0 {
        push_two_digits(&mut text, h);
        push_char(&mut text, ':');
    }
    push_two_digits(&mut text, m);
    push_char(&mut text, ':');
    push_two_digits(&mut text, s);
    text
}

/// The stopwatch as shown: `HH:MM:SS` from one hour up, `MM:SS.cs` with
/// hundredths of a second below.
pub fn stopwatch_text(elapsed: Duration) -> (text: String)
    ensures
        text@ == stopwatch_text_spec(elapsed@),
{
    let t = elapsed.as_secs();
    let h = t / 3600;
    let m = (t % 3600) / 60;
    let s = t % 60;
    let cs = elapsed.subsec_millis() / 10;
    let mut text = String::new();
    if h > 0 {
        push_two_digits(&mut text, h);
        push_char(&mut text, ':');
        push_two_digits(&mut text, m);
        push_char(&mut text, ':');
        push_two_digits(&mut text, s);
    } else {
        push_two_digits(&mut text, m);
        push_char(&mut text, ':');
        push_two_digits(&mut text, s);
        push_char(&mut text, '.');
        push_two_digits(&mut text, cs as u64);
    }
    text
}

/// A lap as shown: in the stopwatch's own formats, `HH:MM:SS` from one
/// hour up and `MM:SS.cs` below.
pub fn lap_text(lap: Duration) -> (text: String)
    ensures
        text@ == stopwatch_text_spec(lap@),
{
    stopwatch_text(lap)
}

/// Whether a blinking display shows at `millis` milliseconds of the wall
/// clock: on for half a second, off for the next, the half seconds counted
/// towards zero.
pub open spec fn blink_on_spec(millis: int) -> bool {
    let a = if millis < 0 {
        -millis
    } else {
        millis
    };
    (a / 500) % 2 == 0
}

/// Whether a blinking display shows at `millis` milliseconds of the wall
/// clock.
pub fn blink_on(millis: i64) -> (on: bool)
    ensures
        on == blink_on_spec(millis as int),
{
    let a: u64 = if millis < 0 {
        (-(millis + 1)) as u64 + 1
    } else {
        millis as u64
    };
    (a / 500) % 2 == 0
}

} // verus!

//! Durations and their human-readable renderings.

use vstd::prelude::*;
use crate::text::{decimal, pad2, push_decimal, push_pad2};

verus! {

/// The largest number of whole seconds that a [`Span`] can hold.
pub const MAX_SPAN_SECS: u64 = 18446744073709551;

/// A length of time with millisecond resolution.
#[derive(Clone, Copy, Debug, PartialEq, Eq, Structural)]
pub struct Span {
    pub millis: u64,
}

impl Span {
    pub fn from_secs(secs: u64) -> (r: Span)
        requires
            secs <= MAX_SPAN_SECS,
        ensures
            r.millis == secs * 1000,
    {
        Span { millis: secs * 1000 }
    }

    pub fn from_millis(millis: u64) -> (r: Span)
        ensures
            r.millis == millis,
    {
        Span { millis }
    }

    /// The number of whole seconds in the span.
    pub fn as_secs(&self) -> (r: u64)
        ensures
            r == self.millis / 1000,
    {
        self.millis / 1000
    }

    pub fn as_millis(&self) -> (r: u64)
        ensures
            r == self.millis,
    {
        self.millis
    }
}

/// `x / unit`, rounded to the nearest integer, halves rounded up.
pub open spec fn round_half_up(x: nat, unit: nat) -> nat
    recommends
        unit > 0,
{
    (x + unit / 2) / unit
}

/// The approximate rendering of a duration of `secs` whole seconds.
pub open spec fn approx_text(secs: nat) -> Seq<char> {
    if secs >= 3600 {
        "≈"@ + decimal(secs / 3600) + "h"@ + decimal((secs % 3600) / 60) + "m"@
    } else if secs >= 600 {
        "≈"@ + decimal(round_half_up(secs, 300) * 5) + "m"@
    } else if secs >= 120 {
        "≈"@ + decimal(round_half_up(secs, 60)) + "m"@
    } else if secs >= 60 {
        "≈1m"@
    } else {
        let tens = round_half_up(secs, 10) * 10;
        "≈"@ + decimal(if tens < 10 { 10 } else { tens }) + "s"@
    }
}

/// The countdown rendering `MM:SS` of `secs` seconds; the minutes are not
/// bounded by 59.
pub open spec fn countdown_text(secs: nat) -> Seq<char> {
    pad2(secs / 60) + ":"@ + pad2(secs % 60)
}

/// The `HH:MM` rendering of a wall-clock instant, `local_secs` seconds after
/// the epoch in local time.
pub open spec fn hhmm_text(local_secs: int) -> Seq<char> {
    let day = local_secs % 86400;
    pad2((day / 3600) as nat) + ":"@ + pad2(((day % 3600) / 60) as nat)
}

/// Renders a duration approximately: whole hours and minutes from one hour
/// on, the nearest five minutes from ten minutes on, the nearest minute from
/// two minutes on, one minute from one minute on, and below that the nearest
/// ten seconds, never less than ten seconds.
pub fn approx_duration(d: Span) -> (r: String)
    ensures
        r@ == approx_text((d.millis / 1000) as nat),
{
    let secs = d.as_secs();
    let mut s = String::new();
    s.append("≈");
    if secs >= 3600 {
        push_decimal(&mut s, secs / 3600);
        s.append("h");
        push_decimal(&mut s, (secs % 3600) / 60);
        s.append("m");
    } else if secs >= 600 {
        push_decimal(&mut s, ((secs + 150) / 300) * 5);
        s.append("m");
    } else if secs >= 120 {
        push_decimal(&mut s, (secs + 30) / 60);
        s.append("m");
    } else if secs >= 60 {
        s = String::new();
        s.append("≈1m");
    } else {
        let rounded = ((secs + 5) / 10) * 10;
        push_decimal(&mut s, if rounded < 10 { 10 } else { rounded });
        s.append("s");
    }
    assert(s@ =~= approx_text(secs as nat));
    s
}

/// Renders a countdown as `MM:SS`, both zero-padded to two digits.
pub fn format_countdown(seconds: u64) -> (r: String)
    ensures
        r@ == countdown_text(seconds as nat),
{
    let mut s = String::new();
    push_pad2(&mut s, seconds / 60);
    s.append(":");
    push_pad2(&mut s, seconds % 60);
    assert(s@ =~= countdown_text(seconds as nat));
    s
}

/// Renders the wall-clock instant `wall_millis` (milliseconds since the
/// epoch) as `HH:MM` in a time zone `utc_offset_secs` seconds east of UTC.
pub fn format_hhmm(wall_millis: u64, utc_offset_secs: i32) -> (r: String)
    ensures
        r@ == hhmm_text((wall_millis / 1000) as int + utc_offset_secs as int),
{
    let wall_day = (wall_millis / 1000) % 86400;
    let offset_day: u64 = if utc_offset_secs >= 0 {
        (utc_offset_secs as u64) % 86400
    } else {
        (86400 - ((-(utc_offset_secs as i64)) as u64) % 86400) % 86400
    };
    let day = (wall_day + offset_day) % 86400;
    proof {
        let local = (wall_millis / 1000) as int + utc_offset_secs as int;
        assert(day as int == local % 86400) by {
            lemma_mod_sum((wall_millis / 1000) as int, utc_offset_secs as int, offset_day as int);
        }
    }
    let mut s = String::new();
    push_pad2(&mut s, day / 3600);
    s.append(":");
    push_pad2(&mut s, (day % 3600) / 60);
    assert(s@ =~= hhmm_text((wall_millis / 1000) as int + utc_offset_secs as int));
    s
}

proof fn lemma_mod_sum(a: int, b: int, b_mod: int)
    requires
        a >= 0,
        0 <= b_mod < 86400,
        b_mod == b % 86400,
    ensures
        ((a % 86400) + b_mod) % 86400 == (a + b) % 86400,
{
    vstd::arithmetic::div_mod::lemma_add_mod_noop(a, b, 86400);
}

} // verus!

//! A playback-relative duration or offset.

use core::ops::{Add, Neg, Sub};
use vstd::prelude::*;
use vstd::string::StringExecFns;

use crate::text::{decimal, decimal_text};

verus! {

/// How many units of a [`Time`] make up one second.
pub const MICROS_PER_SECOND: i64 = 1_000_000;

/// The integer of the 64-bit signed range nearest to `value`.
pub open spec fn saturate(value: int) -> int {
    if value < i64::MIN as int {
        i64::MIN as int
    } else if value > i64::MAX as int {
        i64::MAX as int
    } else {
        value
    }
}

/// A span of playback time, or an offset into the media, in seconds.
///
/// The value is kept as a whole number of microseconds. Arithmetic never
/// fails: a result outside the representable range stops at its nearest end.
#[derive(Clone, Copy, Debug, PartialEq, Eq, PartialOrd, Ord, Hash, Structural)]
pub struct Time {
    pub micros: i64,
}

impl View for Time {
    type V = int;

    /// The value in microseconds.
    open spec fn view(&self) -> int {
        self.micros as int
    }
}

impl Time {
    /// The empty span: adding it changes nothing.
    pub fn zero() -> (time: Time)
        ensures
            time@ == 0,
    {
        Time { micros: 0 }
    }

    /// The time whose value is `micros` microseconds, clamped to the range.
    pub open spec fn of(micros: int) -> Time {
        Time { micros: saturate(micros) as i64 }
    }

    /// The sum of two times.
    pub open spec fn plus(self, rhs: Time) -> Time {
        Time::of(self@ + rhs@)
    }

    /// The difference of two times.
    pub open spec fn minus(self, rhs: Time) -> Time {
        Time::of(self@ - rhs@)
    }

    /// The time of the same length in the other direction.
    pub open spec fn negated(self) -> Time {
        Time::of(-self@)
    }

    /// The time `micros` microseconds long.
    pub fn from_micros(micros: i64) -> (time: Time)
        ensures
            time@ == micros,
    {
        Time { micros }
    }

    /// The value in microseconds.
    pub fn as_micros(self) -> (micros: i64)
        ensures
            micros == self@,
    {
        self.micros
    }

    /// The time `n` seconds long.
    pub fn seconds(n: i32) -> (time: Time)
        ensures
            time@ == n * MICROS_PER_SECOND,
    {
        let n: i64 = n as i64;
        Time { micros: n * MICROS_PER_SECOND }
    }

    /// The time `n` seconds long, for any 64-bit count.
    pub fn whole_seconds(n: i64) -> (time: Time)
        ensures
            time == Time::of(n * MICROS_PER_SECOND),
    {
        clamp(n as i128 * MICROS_PER_SECOND as i128)
    }

    /// The time `n` minutes long.
    pub fn minutes(n: i32) -> (time: Time)
        ensures
            time@ == n * 60 * MICROS_PER_SECOND,
    {
        let n: i64 = n as i64;
        Time { micros: n * 60 * MICROS_PER_SECOND }
    }

    /// The text of [`Time::mmss`]: minutes, a colon, and two digits of
    /// seconds. A time before zero reads as zero, and the minutes stop at
    /// the largest 32-bit number.
    pub open spec fn mmss_text(self) -> Seq<char> {
        let whole = if self@ < 0 {
            0
        } else {
            self@ / (MICROS_PER_SECOND as int)
        };
        let minutes = if whole / 60 > u32::MAX as int {
            u32::MAX as int
        } else {
            whole / 60
        };
        let seconds = whole % 60;
        decimal_text(minutes as nat) + ":"@ + decimal_text((seconds / 10) as nat) + decimal_text(
            (seconds % 10) as nat,
        )
    }

    /// The time as minutes and seconds, such as `3:07`.
    pub fn mmss(self) -> (text: String)
        ensures
            text@ == self.mmss_text(),
    {
        let whole: i64 = if self.micros < 0 {
            0
        } else {
            self.micros / MICROS_PER_SECOND
        };
        let minutes: i64 = if whole / 60 > u32::MAX as i64 {
            u32::MAX as i64
        } else {
            whole / 60
        };
        let seconds: i64 = whole % 60;
        let tens = decimal((seconds / 10) as u64);
        let ones = decimal((seconds % 10) as u64);
        decimal(minutes as u64).concat(":").concat(tens.as_str()).concat(ones.as_str())
    }

    /// Whether this time lies strictly before `other`.
    pub fn lt(self, other: Time) -> (before: bool)
        ensures
            before == (self@ < other@),
    {
        self.micros < other.micros
    }

    /// Whether this time lies at or before `other`.
    pub fn le(self, other: Time) -> (before: bool)
        ensures
            before == (self@ <= other@),
    {
        self.micros <= other.micros
    }
}

/// Brings a wide intermediate result back into the range of a [`Time`].
fn clamp(value: i128) -> (time: Time)
    ensures
        time == Time::of(value as int),
{
    if value < i64::MIN as i128 {
        Time { micros: i64::MIN }
    } else if value > i64::MAX as i128 {
        Time { micros: i64::MAX }
    } else {
        Time { micros: value as i64 }
    }
}

impl core::ops::Add for Time {
    type Output = Time;

    fn add(self, rhs: Time) -> (sum: Time) {
        clamp(self.micros as i128 + rhs.micros as i128)
    }
}

impl vstd::std_specs::ops::AddSpecImpl for Time {
    open spec fn obeys_add_spec() -> bool {
        true
    }

    open spec fn add_req(self, rhs: Time) -> bool {
        true
    }

    open spec fn add_spec(self, rhs: Time) -> Time {
        self.plus(rhs)
    }
}

impl core::ops::Sub for Time {
    type Output = Time;

    fn sub(self, rhs: Time) -> (difference: Time) {
        clamp(self.micros as i128 - rhs.micros as i128)
    }
}

impl vstd::std_specs::ops::SubSpecImpl for Time {
    open spec fn obeys_sub_spec() -> bool {
        true
    }

    open spec fn sub_req(self, rhs: Time) -> bool {
        true
    }

    open spec fn sub_spec(self, rhs: Time) -> Time {
        self.minus(rhs)
    }
}

impl core::ops::Neg for Time {
    type Output = Time;

    fn neg(self) -> (negated: Time) {
        clamp(-(self.micros as i128))
    }
}

impl vstd::std_specs::ops::NegSpecImpl for Time {
    open spec fn obeys_neg_spec() -> bool {
        true
    }

    open spec fn neg_req(self) -> bool {
        true
    }

    open spec fn neg_spec(self) -> Time {
        self.negated()
    }
}

/// Zero is the identity of addition, on either side.
pub proof fn zero_is_additive_identity(time: Time)
    ensures
        time.plus(Time::of(0)) == time,
        Time::of(0).plus(time) == time,
        time.minus(Time::of(0)) == time,
{
}

} // verus!

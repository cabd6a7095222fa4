use vstd::prelude::*;

verus! {

/// Number of fraction units in one second.
pub const TICKS_PER_SECOND: u64 = 0x1_0000_0000;

/// Number of nanoseconds in one second.
pub const NANOS_PER_SECOND: u32 = 1_000_000_000;

/// A span of time: whole seconds plus a fraction counted in units of
/// 2^-32 seconds.
#[derive(Clone, Copy, Debug, PartialEq, Eq, Structural, Hash, PartialOrd, Ord)]
pub struct Duration {
    pub seconds: i32,
    pub fraction: u32,
}

/// The fraction that stands for `nanos` nanoseconds, rounded down.
pub open spec fn spec_fraction_of_nanos(nanos: int) -> int {
    nanos * 0x1_0000_0000 / 1_000_000_000
}

/// Converts a count of nanoseconds below one second into a binary fraction.
pub fn fraction_of_nanos(nanos: u32) -> (fraction: u32)
    requires
        nanos < NANOS_PER_SECOND,
    ensures
        fraction as int == spec_fraction_of_nanos(nanos as int),
{
    let wide: u64 = (nanos as u64) * TICKS_PER_SECOND;
    let q: u64 = wide / 1_000_000_000u64;
    assert(q < 0x1_0000_0000) by {
        assert(wide < 1_000_000_000 * 0x1_0000_0000);
    }
    q as u32
}

/// The nanoseconds that a binary fraction of a second stands for, rounded
/// down.
pub open spec fn spec_nanos_of_fraction(fraction: int) -> int {
    fraction * 1_000_000_000 / 0x1_0000_0000
}

/// Converts a binary fraction of a second into nanoseconds, which are
/// fewer than a second has.
pub fn nanos_of_fraction(fraction: u32) -> (nanos: u32)
    ensures
        nanos as int == spec_nanos_of_fraction(fraction as int),
        nanos < NANOS_PER_SECOND,
{
    let wide: u64 = (fraction as u64) * 1_000_000_000u64;
    let q: u64 = wide / TICKS_PER_SECOND;
    assert(q < 1_000_000_000) by {
        assert(wide < 0x1_0000_0000 * 1_000_000_000);
    }
    q as u32
}

/// Turning nanoseconds into a fraction and back loses less than one
/// nanosecond, and never adds any.
pub proof fn law_nanos_survive_the_fraction(nanos: int)
    requires
        0 <= nanos < 1_000_000_000,
    ensures
        nanos - 1 <= spec_nanos_of_fraction(spec_fraction_of_nanos(nanos)) <= nanos,
{
    let f = spec_fraction_of_nanos(nanos);
    assert(f * 1_000_000_000 <= nanos * 0x1_0000_0000 < (f + 1) * 1_000_000_000);
    let back = spec_nanos_of_fraction(f);
    assert(back * 0x1_0000_0000 <= f * 1_000_000_000 < (back + 1) * 0x1_0000_0000);
}

impl Duration {
    /// The span as a count of 2^-32 second units.
    pub open spec fn ticks(&self) -> int {
        self.seconds as int * 0x1_0000_0000 + self.fraction as int
    }

    pub open spec fn spec_zero() -> Duration {
        Duration { seconds: 0, fraction: 0 }
    }

    /// The empty span.
    #[verifier::when_used_as_spec(spec_zero)]
    pub fn zero() -> (d: Duration)
        ensures
            d == Duration::spec_zero(),
    {
        Duration { seconds: 0, fraction: 0 }
    }

    pub open spec fn spec_infinite() -> Duration {
        Duration { seconds: 0x7fff_ffff, fraction: 0xffff_ffff }
    }

    /// The longest span; it stands for "never".
    #[verifier::when_used_as_spec(spec_infinite)]
    pub fn infinite() -> (d: Duration)
        ensures
            d == Duration::spec_infinite(),
    {
        Duration { seconds: 0x7fff_ffff, fraction: 0xffff_ffff }
    }

    /// A span of whole seconds.
    pub fn from_secs(seconds: i32) -> (d: Duration)
        ensures
            d.seconds == seconds,
            d.fraction == 0,
            d.ticks() == seconds as int * 0x1_0000_0000,
    {
        Duration { seconds, fraction: 0 }
    }

    /// A span given in milliseconds; spans too long for the type become
    /// the infinite span.
    pub fn from_millis(millis: u64) -> (d: Duration)
        ensures
            millis / 1000 <= 0x7fff_ffff ==> d.seconds as int == millis / 1000 && d.fraction as int
                == spec_fraction_of_nanos((millis % 1000) * 1_000_000),
            millis / 1000 > 0x7fff_ffff ==> d == Duration::spec_infinite(),
    {
        let secs: u64 = millis / 1000;
        if secs > 0x7fff_ffff {
            Duration::infinite()
        } else {
            let rest: u32 = (millis % 1000) as u32;
            let fraction = fraction_of_nanos(rest * 1_000_000);
            Duration { seconds: secs as i32, fraction }
        }
    }

    /// Whether this span is strictly shorter than `other`.
    pub fn lt(&self, other: &Duration) -> (b: bool)
        ensures
            b == (self.ticks() < other.ticks()),
    {
        self.seconds < other.seconds || (self.seconds == other.seconds && self.fraction
            < other.fraction)
    }

    /// Whether this span is at most as long as `other`.
    pub fn le(&self, other: &Duration) -> (b: bool)
        ensures
            b == (self.ticks() <= other.ticks()),
    {
        self.seconds < other.seconds || (self.seconds == other.seconds && self.fraction
            <= other.fraction)
    }

    /// The span as a signed count of 2^-32 second units.
    pub fn to_ticks(&self) -> (t: i64)
        ensures
            t as int == self.ticks(),
    {
        (self.seconds as i64) * 0x1_0000_0000i64 + (self.fraction as i64)
    }

    /// The span multiplied by a small whole factor, capped at the infinite
    /// span and at the most negative span.
    pub fn times(&self, factor: u8) -> (d: Duration)
        ensures
            d.ticks() == spec_clamp_ticks(self.ticks() * factor as int),
    {
        let t: i64 = self.to_ticks();
        assert(-0x8000_0000_0000_0000 * 256 <= t * factor <= 0x8000_0000_0000_0000 * 256)
            by (nonlinear_arith)
            requires
                -0x8000_0000_0000_0000 <= t < 0x8000_0000_0000_0000,
                0 <= factor < 256,
        {
        }
        let wide: i128 = (t as i128) * (factor as i128);
        Duration::from_wide_ticks(wide)
    }

    /// The span of the given tick count, capped at the bounds of the type.
    pub fn from_wide_ticks(ticks: i128) -> (d: Duration)
        ensures
            d.ticks() == spec_clamp_ticks(ticks as int),
    {
        if ticks >= 0x7fff_ffff_ffff_ffffi128 {
            Duration { seconds: 0x7fff_ffff, fraction: 0xffff_ffff }
        } else if ticks <= -0x8000_0000_0000_0000i128 {
            Duration { seconds: -0x8000_0000, fraction: 0 }
        } else if ticks >= 0 {
            let seconds: i128 = ticks / 0x1_0000_0000i128;
            let fraction: i128 = ticks % 0x1_0000_0000i128;
            Duration { seconds: seconds as i32, fraction: fraction as u32 }
        } else {
            // Shift into the non-negative range before dividing, so that the
            // quotient rounds toward negative infinity.
            let shifted: i128 = ticks + 0x8000_0000_0000_0000i128;
            let seconds: i128 = shifted / 0x1_0000_0000i128 - 0x8000_0000i128;
            let fraction: i128 = shifted % 0x1_0000_0000i128;
            Duration { seconds: seconds as i32, fraction: fraction as u32 }
        }
    }
}

/// A tick count forced into the range that a `Duration` can hold.
pub open spec fn spec_clamp_ticks(ticks: int) -> int {
    if ticks >= 0x7fff_ffff_ffff_ffff {
        0x7fff_ffff_ffff_ffff
    } else if ticks <= -0x8000_0000_0000_0000 {
        -0x8000_0000_0000_0000
    } else {
        ticks
    }
}

} // verus!

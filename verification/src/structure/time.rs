use crate::structure::duration::fraction_of_nanos;
use crate::structure::duration::Duration;
use crate::structure::duration::NANOS_PER_SECOND;
use vstd::prelude::*;

verus! {

/// A point in time: seconds since the epoch plus a fraction counted in
/// units of 2^-32 seconds. Within one cache it is the unique key of a sample.
#[derive(Clone, Copy, Debug, PartialEq, Eq, Structural, Hash, PartialOrd, Ord)]
pub struct Timestamp {
    pub seconds: u32,
    pub fraction: u32,
}

impl Timestamp {
    /// The point in time as a count of 2^-32 second units; timestamps are
    /// ordered by it.
    pub open spec fn ticks(&self) -> int {
        self.seconds as int * 0x1_0000_0000 + self.fraction as int
    }

    pub open spec fn spec_zero() -> Timestamp {
        Timestamp { seconds: 0, fraction: 0 }
    }

    /// The epoch.
    #[verifier::when_used_as_spec(spec_zero)]
    pub fn zero() -> (t: Timestamp)
        ensures
            t == Timestamp::spec_zero(),
    {
        Timestamp { seconds: 0, fraction: 0 }
    }

    pub open spec fn spec_invalid() -> Timestamp {
        Timestamp { seconds: 0xffff_ffff, fraction: 0xffff_ffff }
    }

    /// The value that marks an absent timestamp on the wire.
    #[verifier::when_used_as_spec(spec_invalid)]
    pub fn invalid() -> (t: Timestamp)
        ensures
            t == Timestamp::spec_invalid(),
    {
        Timestamp { seconds: 0xffff_ffff, fraction: 0xffff_ffff }
    }

    /// The timestamp of a clock reading given as seconds and nanoseconds
    /// since the epoch. Seconds beyond 32 bits wrap, as they do on the wire.
    pub fn from_unix(seconds: u64, nanos: u32) -> (t: Timestamp)
        requires
            nanos < NANOS_PER_SECOND,
        ensures
            t.seconds as int == seconds % 0x1_0000_0000,
            t.fraction == crate::structure::duration::spec_fraction_of_nanos(nanos as int),
    {
        let low: u64 = seconds % 0x1_0000_0000u64;
        Timestamp { seconds: low as u32, fraction: fraction_of_nanos(nanos) }
    }

    /// Whether this point in time lies strictly before `other`.
    pub fn lt(&self, other: &Timestamp) -> (b: bool)
        ensures
            b == (self.ticks() < other.ticks()),
    {
        self.seconds < other.seconds || (self.seconds == other.seconds && self.fraction
            < other.fraction)
    }

    /// Whether this point in time does not lie after `other`.
    pub fn le(&self, other: &Timestamp) -> (b: bool)
        ensures
            b == (self.ticks() <= other.ticks()),
    {
        self.seconds < other.seconds || (self.seconds == other.seconds && self.fraction
            <= other.fraction)
    }

    /// The signed span from `earlier` to this point in time. It is capped at
    /// the bounds of `Duration`.
    pub fn duration_since(&self, earlier: Timestamp) -> (d: Duration)
        ensures
            d.ticks() == crate::structure::duration::spec_clamp_ticks(
                self.ticks() - earlier.ticks(),
            ),
    {
        let a: i128 = (self.seconds as i128) * 0x1_0000_0000i128 + (self.fraction as i128);
        let b: i128 = (earlier.seconds as i128) * 0x1_0000_0000i128 + (earlier.fraction as i128);
        Duration::from_wide_ticks(a - b)
    }

    /// The point in time that lies `d` after this one, where it can be
    /// represented.
    pub open spec fn spec_checked_add(&self, d: Duration) -> Option<Timestamp> {
        let sum = self.ticks() + d.ticks();
        if sum < 0 || sum > 0xffff_ffff_ffff_ffff {
            None
        } else {
            Some(
                Timestamp {
                    seconds: (sum / 0x1_0000_0000) as u32,
                    fraction: (sum % 0x1_0000_0000) as u32,
                },
            )
        }
    }

    /// The point in time that lies `d` after this one, or `None` when it
    /// cannot be represented.
    pub fn checked_add(&self, d: Duration) -> (r: Option<Timestamp>)
        ensures
            r == self.spec_checked_add(d),
            match r {
                Some(t) => t.ticks() == self.ticks() + d.ticks(),
                None => self.ticks() + d.ticks() < 0 || self.ticks() + d.ticks()
                    > 0xffff_ffff_ffff_ffff,
            },
    {
        let a: i128 = (self.seconds as i128) * 0x1_0000_0000i128 + (self.fraction as i128);
        let b: i128 = (d.seconds as i128) * 0x1_0000_0000i128 + (d.fraction as i128);
        let sum: i128 = a + b;
        if sum < 0 || sum > 0xffff_ffff_ffff_ffffi128 {
            None
        } else {
            let seconds: i128 = sum / 0x1_0000_0000i128;
            let fraction: i128 = sum % 0x1_0000_0000i128;
            Some(Timestamp { seconds: seconds as u32, fraction: fraction as u32 })
        }
    }
}

/// Two timestamps with the same tick count are the same timestamp.
pub proof fn lemma_ticks_injective(a: Timestamp, b: Timestamp)
    ensures
        a.ticks() == b.ticks() <==> a == b,
{
}

} // verus!

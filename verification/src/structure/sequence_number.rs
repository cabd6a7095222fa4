use vstd::prelude::*;

verus! {

/// Position of a change in the history of its writer. The first change of
/// a writer has number 1.
#[derive(Clone, Copy, Debug, PartialEq, Eq, Structural, Hash, PartialOrd, Ord)]
pub struct SequenceNumber {
    pub value: i64,
}

/// The wire value that marks an unknown sequence number: high word -1, low
/// word 0.
pub const SEQUENCENUMBER_UNKNOWN_VALUE: i64 = -0x1_0000_0000;

impl SequenceNumber {
    pub open spec fn spec_unknown() -> SequenceNumber {
        SequenceNumber { value: SEQUENCENUMBER_UNKNOWN_VALUE }
    }

    /// The distinguished value for "no sequence number".
    #[verifier::when_used_as_spec(spec_unknown)]
    pub fn unknown() -> (s: SequenceNumber)
        ensures
            s == SequenceNumber::spec_unknown(),
    {
        SequenceNumber { value: SEQUENCENUMBER_UNKNOWN_VALUE }
    }

    /// The sequence number with the given value.
    pub fn from(value: i64) -> (s: SequenceNumber)
        ensures
            s.value == value,
    {
        SequenceNumber { value }
    }

    /// Whether this number comes strictly before `other`.
    pub fn lt(&self, other: &SequenceNumber) -> (b: bool)
        ensures
            b == (self.value < other.value),
    {
        self.value < other.value
    }

    /// The number that follows this one, or `None` at the end of the range.
    pub fn checked_next(&self) -> (r: Option<SequenceNumber>)
        ensures
            match r {
                Some(n) => n.value == self.value + 1,
                None => self.value == i64::MAX,
            },
    {
        if self.value == i64::MAX {
            None
        } else {
            Some(SequenceNumber { value: self.value + 1 })
        }
    }
}

/// Largest number of sequence numbers that a set names.
pub const SEQUENCE_NUMBER_SET_MAX: usize = 256;

/// A set of sequence numbers in a window that starts at `base`: the number
/// `base + i` is in the set where the bit `i` is set.
#[derive(Debug, Clone, PartialEq, Eq)]
pub struct SequenceNumberSet {
    pub base: SequenceNumber,
    pub bits: Vec<bool>,
}

impl SequenceNumberSet {
    /// Whether the set holds the number `sn`.
    pub open spec fn spec_contains(&self, sn: int) -> bool {
        self.base.value <= sn < self.base.value + self.bits@.len() && self.bits@[sn
            - self.base.value]
    }

    /// The invariant of a set: its window has at most 256 numbers, all of
    /// them within the range of sequence numbers.
    pub open spec fn wf(&self) -> bool {
        &&& self.bits@.len() <= SEQUENCE_NUMBER_SET_MAX
        &&& self.base.value + self.bits@.len() <= i64::MAX + 1
    }

    /// Whether the set is well formed.
    pub fn is_well_formed(&self) -> (b: bool)
        ensures
            b == self.wf(),
    {
        self.bits.len() <= SEQUENCE_NUMBER_SET_MAX && self.base.value as i128
            + self.bits.len() as i128 <= i64::MAX as i128 + 1
    }

    /// The empty set with the window starting at `base`.
    pub fn new(base: SequenceNumber) -> (s: SequenceNumberSet)
        ensures
            s.base == base,
            s.bits@.len() == 0,
            forall|sn: int| !s.spec_contains(sn),
    {
        SequenceNumberSet { base, bits: Vec::new() }
    }

    /// Whether the window of the set may take one more number.
    pub fn can_grow(&self) -> (b: bool)
        requires
            self.wf(),
        ensures
            b == (self.bits@.len() < SEQUENCE_NUMBER_SET_MAX && self.base.value + self.bits@.len()
                <= i64::MAX),
    {
        self.bits.len() < SEQUENCE_NUMBER_SET_MAX && self.base.value as i128
            + self.bits.len() as i128 <= i64::MAX as i128
    }

    /// Whether the set holds the number `sn`.
    pub fn contains(&self, sn: i64) -> (b: bool)
        requires
            self.wf(),
        ensures
            b == self.spec_contains(sn as int),
    {
        if sn < self.base.value {
            return false;
        }
        let offset: i128 = sn as i128 - self.base.value as i128;
        if offset >= self.bits.len() as i128 {
            return false;
        }
        self.bits[offset as usize]
    }

    /// Whether the set holds no number.
    pub fn is_empty(&self) -> (b: bool)
        ensures
            b == (forall|sn: int| !self.spec_contains(sn)),
    {
        let mut i: usize = 0;
        while i < self.bits.len()
            invariant
                i <= self.bits.len(),
                forall|k: int| 0 <= k < i ==> !self.bits@[k],
            decreases self.bits.len() - i,
        {
            if self.bits[i] {
                assert(self.spec_contains(self.base.value + i));
                return false;
            }
            i += 1;
        }
        true
    }
}

} // verus!

use crate::dds::ddsdata::DDSData;
use crate::structure::guid::GUID;
use crate::structure::sequence_number::SequenceNumber;
use crate::structure::time::Timestamp;
use vstd::prelude::*;

verus! {

/// What a change does to its instance.
#[derive(Debug, PartialOrd, PartialEq, Ord, Eq, Structural, Copy, Clone, Hash)]
pub enum ChangeKind {
    Alive,
    NotAliveDisposed,
    NotAliveUnregistered,
}

/// One change in the history of a writer. It does not change once made.
#[derive(Debug, Clone)]
pub struct CacheChange {
    pub writer_guid: GUID,
    pub sequence_number: SequenceNumber,
    pub source_timestamp: Option<Timestamp>,
    pub data_value: DDSData,
}

impl CacheChange {
    /// The change made of its four parts.
    pub fn new(
        writer_guid: GUID,
        sequence_number: SequenceNumber,
        source_timestamp: Option<Timestamp>,
        data_value: DDSData,
    ) -> (c: CacheChange)
        ensures
            c.writer_guid == writer_guid,
            c.sequence_number == sequence_number,
            c.source_timestamp == source_timestamp,
            c.data_value == data_value,
    {
        CacheChange { writer_guid, sequence_number, source_timestamp, data_value }
    }

    /// Whether two changes are the same change: of the same writer, under
    /// the same number, with the same source time, carrying the same.
    pub open spec fn spec_same(&self, other: &CacheChange) -> bool {
        &&& self.writer_guid == other.writer_guid
        &&& self.sequence_number == other.sequence_number
        &&& self.source_timestamp == other.source_timestamp
        &&& self.data_value.spec_same(&other.data_value)
    }

    /// Whether two changes are the same change.
    pub fn same_as(&self, other: &CacheChange) -> (same: bool)
        ensures
            same == self.spec_same(other),
    {
        self.writer_guid == other.writer_guid && self.sequence_number == other.sequence_number
            && self.source_timestamp == other.source_timestamp && self.data_value.same_as(
            &other.data_value,
        )
    }

    /// A copy of the change, which shares its bytes with this one.
    pub fn duplicate(&self) -> (copy: CacheChange)
        ensures
            copy.spec_same(self),
    {
        CacheChange {
            writer_guid: self.writer_guid,
            sequence_number: self.sequence_number,
            source_timestamp: self.source_timestamp,
            data_value: self.data_value.duplicate(),
        }
    }

    /// What the change does to its instance.
    pub fn change_kind(&self) -> (k: ChangeKind)
        ensures
            k == self.data_value.spec_change_kind(),
    {
        self.data_value.change_kind()
    }
}

} // verus!

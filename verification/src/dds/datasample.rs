use crate::dds::sampleinfo::SampleInfo;
use vstd::prelude::*;

verus! {

/// One delivered sample: either a value of the data type, or the key of
/// an instance whose disposal is reported, with the metadata of the
/// delivery.
pub struct DataSample<D, K> {
    pub sample_info: SampleInfo,
    pub value: Result<D, K>,
}

impl<D, K> DataSample<D, K> {
    /// A sample made of its two parts.
    pub fn new(sample_info: SampleInfo, value: Result<D, K>) -> (s: DataSample<D, K>)
        ensures
            s.sample_info == sample_info,
            s.value == value,
    {
        DataSample { sample_info, value }
    }

    /// The value or key that the sample carries.
    pub fn value(&self) -> (v: &Result<D, K>)
        ensures
            *v == self.value,
    {
        &self.value
    }

    /// The metadata of the delivery.
    pub fn sample_info(&self) -> (i: &SampleInfo)
        ensures
            *i == self.sample_info,
    {
        &self.sample_info
    }

    /// Gives up the sample for the value or key that it carries.
    pub fn into_value(self) -> (v: Result<D, K>)
        ensures
            v == self.value,
    {
        self.value
    }
}

} // verus!

use crate::dds::sampleinfo::SampleInfo;
use vstd::prelude::*;

verus! {

/// One delivered sample of a topic without keys.
pub struct DataSample<D> {
    pub sample_info: SampleInfo,
    pub value: D,
}

impl<D> DataSample<D> {
    /// The metadata of the delivery.
    pub fn sample_info(&self) -> (i: &SampleInfo)
        ensures
            *i == self.sample_info,
    {
        &self.sample_info
    }

    /// The value delivered.
    pub fn value(&self) -> (v: &D)
        ensures
            *v == self.value,
    {
        &self.value
    }
}

} // verus!

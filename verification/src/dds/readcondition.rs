use crate::dds::sampleinfo::InstanceState;
use crate::dds::sampleinfo::InstanceStateMask;
use crate::dds::sampleinfo::SampleState;
use crate::dds::sampleinfo::SampleStateMask;
use crate::dds::sampleinfo::ViewState;
use crate::dds::sampleinfo::ViewStateMask;
use vstd::prelude::*;

verus! {

/// Selects samples by three independent masks: a sample passes when each
/// mask holds the sample's state of that kind.
#[derive(Clone, Copy, Debug, PartialEq, Eq, Structural, Hash)]
pub struct ReadCondition {
    pub sample_state_mask: SampleStateMask,
    pub view_state_mask: ViewStateMask,
    pub instance_state_mask: InstanceStateMask,
}

impl ReadCondition {
    /// Whether a sample in the given three states passes the condition.
    pub open spec fn accepts(
        &self,
        sample_state: SampleState,
        view_state: ViewState,
        instance_state: InstanceState,
    ) -> bool {
        &&& self.sample_state_mask.spec_contains(sample_state)
        &&& self.view_state_mask.spec_contains(view_state)
        &&& self.instance_state_mask.spec_contains(instance_state)
    }

    pub open spec fn spec_any() -> ReadCondition {
        ReadCondition {
            sample_state_mask: SampleStateMask { read: true, not_read: true },
            view_state_mask: ViewStateMask { new: true, not_new: true },
            instance_state_mask: InstanceStateMask {
                alive: true,
                not_alive_disposed: true,
                not_alive_no_writers: true,
            },
        }
    }

    pub open spec fn spec_not_read() -> ReadCondition {
        ReadCondition {
            sample_state_mask: SampleStateMask { read: false, not_read: true },
            view_state_mask: ViewStateMask { new: true, not_new: true },
            instance_state_mask: InstanceStateMask {
                alive: true,
                not_alive_disposed: true,
                not_alive_no_writers: true,
            },
        }
    }

    /// The condition that every sample passes.
    #[verifier::when_used_as_spec(spec_any)]
    pub fn any() -> (rc: ReadCondition)
        ensures
            rc == ReadCondition::spec_any(),
            forall|s: SampleState, v: ViewState, i: InstanceState| rc.accepts(s, v, i),
    {
        ReadCondition {
            sample_state_mask: SampleStateMask::any(),
            view_state_mask: ViewStateMask::any(),
            instance_state_mask: InstanceStateMask::any(),
        }
    }

    /// The condition that exactly the samples not read before pass.
    #[verifier::when_used_as_spec(spec_not_read)]
    pub fn not_read() -> (rc: ReadCondition)
        ensures
            rc == ReadCondition::spec_not_read(),
            forall|s: SampleState, v: ViewState, i: InstanceState|
                rc.accepts(s, v, i) == (s == SampleState::NotRead),
    {
        ReadCondition {
            sample_state_mask: SampleStateMask::only(SampleState::NotRead),
            view_state_mask: ViewStateMask::any(),
            instance_state_mask: InstanceStateMask::any(),
        }
    }

    /// The condition built from three masks.
    pub fn new(
        sample_state_mask: SampleStateMask,
        view_state_mask: ViewStateMask,
        instance_state_mask: InstanceStateMask,
    ) -> (rc: ReadCondition)
        ensures
            rc.sample_state_mask == sample_state_mask,
            rc.view_state_mask == view_state_mask,
            rc.instance_state_mask == instance_state_mask,
    {
        ReadCondition { sample_state_mask, view_state_mask, instance_state_mask }
    }

    /// The mask on the sample state.
    pub fn sample_state_mask(&self) -> (m: &SampleStateMask)
        ensures
            *m == self.sample_state_mask,
    {
        &self.sample_state_mask
    }

    /// The mask on the view state.
    pub fn view_state_mask(&self) -> (m: &ViewStateMask)
        ensures
            *m == self.view_state_mask,
    {
        &self.view_state_mask
    }

    /// The mask on the instance state.
    pub fn instance_state_mask(&self) -> (m: &InstanceStateMask)
        ensures
            *m == self.instance_state_mask,
    {
        &self.instance_state_mask
    }
}

} // verus!

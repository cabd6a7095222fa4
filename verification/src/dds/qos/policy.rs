use crate::structure::duration::Duration;
use vstd::prelude::*;

verus! {

/// How long samples outlive their writer.
#[derive(Clone, Copy, Debug, PartialEq, Eq, Structural, Hash)]
pub enum Durability {
    Volatile,
    TransientLocal,
    Transient,
    Persistent,
}

impl Durability {
    /// Strength of the guarantee: a reader may ask for no more than the
    /// writer offers.
    pub open spec fn spec_rank(&self) -> int {
        match self {
            Durability::Volatile => 0,
            Durability::TransientLocal => 1,
            Durability::Transient => 2,
            Durability::Persistent => 3,
        }
    }

    /// Strength of the guarantee.
    pub fn rank(&self) -> (r: u8)
        ensures
            r as int == self.spec_rank(),
    {
        match self {
            Durability::Volatile => 0,
            Durability::TransientLocal => 1,
            Durability::Transient => 2,
            Durability::Persistent => 3,
        }
    }
}

/// Extent over which changes are presented together.
#[derive(Clone, Copy, Debug, PartialEq, Eq, Structural, Hash)]
pub enum PresentationAccessScope {
    Instance,
    Topic,
    Group,
}

impl PresentationAccessScope {
    /// Width of the scope.
    pub open spec fn spec_rank(&self) -> int {
        match self {
            PresentationAccessScope::Instance => 0,
            PresentationAccessScope::Topic => 1,
            PresentationAccessScope::Group => 2,
        }
    }

    /// Width of the scope.
    pub fn rank(&self) -> (r: u8)
        ensures
            r as int == self.spec_rank(),
    {
        match self {
            PresentationAccessScope::Instance => 0,
            PresentationAccessScope::Topic => 1,
            PresentationAccessScope::Group => 2,
        }
    }
}

/// How changes are presented to the application.
#[derive(Clone, Copy, Debug, PartialEq, Eq, Structural, Hash)]
pub struct Presentation {
    pub access_scope: PresentationAccessScope,
    pub coherent_access: bool,
    pub ordered_access: bool,
}

/// Longest period between two samples of an instance.
#[derive(Clone, Copy, Debug, PartialEq, Eq, Structural, Hash)]
pub struct Deadline(pub Duration);

/// Delay that the application tolerates.
#[derive(Clone, Copy, Debug, PartialEq, Eq, Structural, Hash)]
pub struct LatencyBudget {
    pub duration: Duration,
}

/// Whether several writers may update one instance.
#[derive(Clone, Copy, Debug, PartialEq, Eq, Structural, Hash)]
pub enum Ownership {
    Shared,
    Exclusive { strength: i32 },
}

/// How a writer shows that it is alive, and for how long one sign lasts.
#[derive(Clone, Copy, Debug, PartialEq, Eq, Structural, Hash)]
pub enum Liveliness {
    Automatic { lease_duration: Duration },
    ManualByParticipant { lease_duration: Duration },
    ManualByTopic { lease_duration: Duration },
}

impl Liveliness {
    /// The lease of the policy, whatever its kind.
    pub open spec fn spec_lease_duration(&self) -> Duration {
        match self {
            Liveliness::Automatic { lease_duration } => *lease_duration,
            Liveliness::ManualByParticipant { lease_duration } => *lease_duration,
            Liveliness::ManualByTopic { lease_duration } => *lease_duration,
        }
    }

    /// The lease of the policy.
    #[verifier::when_used_as_spec(spec_lease_duration)]
    pub fn lease_duration(&self) -> (d: Duration)
        ensures
            d == self.spec_lease_duration(),
    {
        match self {
            Liveliness::Automatic { lease_duration } => *lease_duration,
            Liveliness::ManualByParticipant { lease_duration } => *lease_duration,
            Liveliness::ManualByTopic { lease_duration } => *lease_duration,
        }
    }

    /// Strength of the kind: automatic is weakest, manual by topic strongest.
    pub open spec fn spec_rank(&self) -> int {
        match self {
            Liveliness::Automatic { .. } => 0,
            Liveliness::ManualByParticipant { .. } => 1,
            Liveliness::ManualByTopic { .. } => 2,
        }
    }

    /// Strength of the kind.
    pub fn rank(&self) -> (r: u8)
        ensures
            r as int == self.spec_rank(),
    {
        match self {
            Liveliness::Automatic { .. } => 0,
            Liveliness::ManualByParticipant { .. } => 1,
            Liveliness::ManualByTopic { .. } => 2,
        }
    }
}

/// Least time between two samples that a reader wants to see.
#[derive(Clone, Copy, Debug, PartialEq, Eq, Structural, Hash)]
pub struct TimeBasedFilter {
    pub minimum_separation: Duration,
}

/// Whether lost samples are sent again.
#[derive(Clone, Copy, Debug, PartialEq, Eq, Structural, Hash)]
pub enum Reliability {
    BestEffort,
    Reliable { max_blocking_time: Duration },
}

impl Reliability {
    /// Strength of the guarantee: reliable is stronger than best effort.
    pub open spec fn spec_rank(&self) -> int {
        match self {
            Reliability::BestEffort => 0,
            Reliability::Reliable { .. } => 1,
        }
    }

    /// Strength of the guarantee.
    pub fn rank(&self) -> (r: u8)
        ensures
            r as int == self.spec_rank(),
    {
        match self {
            Reliability::BestEffort => 0,
            Reliability::Reliable { .. } => 1,
        }
    }
}

/// By which timestamp a reader orders samples of different writers.
#[derive(Clone, Copy, Debug, PartialEq, Eq, Structural, Hash)]
pub enum DestinationOrder {
    ByReceptionTimestamp,
    BySourceTimeStamp,
}

impl DestinationOrder {
    /// Strength of the guarantee.
    pub open spec fn spec_rank(&self) -> int {
        match self {
            DestinationOrder::ByReceptionTimestamp => 0,
            DestinationOrder::BySourceTimeStamp => 1,
        }
    }

    /// Strength of the guarantee.
    pub fn rank(&self) -> (r: u8)
        ensures
            r as int == self.spec_rank(),
    {
        match self {
            DestinationOrder::ByReceptionTimestamp => 0,
            DestinationOrder::BySourceTimeStamp => 1,
        }
    }
}

/// How many samples of an instance a cache keeps.
#[derive(Clone, Copy, Debug, PartialEq, Eq, Structural, Hash)]
pub enum History {
    KeepLast { depth: i32 },
    KeepAll,
}

/// Upper bounds on what a cache holds.
#[derive(Clone, Copy, Debug, PartialEq, Eq, Structural, Hash)]
pub struct ResourceLimits {
    pub max_samples: i32,
    pub max_instances: i32,
    pub max_samples_per_instance: i32,
}

/// How long a sample stays valid.
#[derive(Clone, Copy, Debug, PartialEq, Eq, Structural, Hash)]
pub struct Lifespan {
    pub duration: Duration,
}

} // verus!

use crate::structure::guid::GUID;
use crate::structure::time::Timestamp;
use vstd::prelude::*;

verus! {

/// Whether a sample has been delivered to the application before.
#[derive(Clone, Copy, Debug, PartialEq, Eq, Structural, Hash)]
pub enum SampleState {
    Read,
    NotRead,
}

/// Whether a sample belongs to a generation of its instance that the
/// application has not seen yet.
#[derive(Clone, Copy, Debug, PartialEq, Eq, Structural, Hash)]
pub enum ViewState {
    New,
    NotNew,
}

/// Lifecycle state of an instance.
#[derive(Clone, Copy, Debug, PartialEq, Eq, Structural, Hash)]
pub enum InstanceState {
    Alive,
    NotAliveDisposed,
    NotAliveNoWriters,
}

/// A set of sample states.
#[derive(Clone, Copy, Debug, PartialEq, Eq, Structural, Hash)]
pub struct SampleStateMask {
    pub read: bool,
    pub not_read: bool,
}

impl SampleStateMask {
    /// Whether the set holds `state`.
    pub open spec fn spec_contains(&self, state: SampleState) -> bool {
        match state {
            SampleState::Read => self.read,
            SampleState::NotRead => self.not_read,
        }
    }

    /// Whether the set holds `state`.
    #[verifier::when_used_as_spec(spec_contains)]
    pub fn contains(&self, state: SampleState) -> (b: bool)
        ensures
            b == self.spec_contains(state),
    {
        match state {
            SampleState::Read => self.read,
            SampleState::NotRead => self.not_read,
        }
    }

    /// The set of all sample states.
    pub fn any() -> (m: SampleStateMask)
        ensures
            m == (SampleStateMask { read: true, not_read: true }),
            forall|s: SampleState| m.spec_contains(s),
    {
        SampleStateMask { read: true, not_read: true }
    }

    /// The set that holds `state` alone.
    pub fn only(state: SampleState) -> (m: SampleStateMask)
        ensures
            m == (SampleStateMask {
                read: state == SampleState::Read,
                not_read: state == SampleState::NotRead,
            }),
            forall|s: SampleState| m.spec_contains(s) == (s == state),
    {
        match state {
            SampleState::Read => SampleStateMask { read: true, not_read: false },
            SampleState::NotRead => SampleStateMask { read: false, not_read: true },
        }
    }
}

/// A set of view states.
#[derive(Clone, Copy, Debug, PartialEq, Eq, Structural, Hash)]
pub struct ViewStateMask {
    pub new: bool,
    pub not_new: bool,
}

impl ViewStateMask {
    /// Whether the set holds `state`.
    pub open spec fn spec_contains(&self, state: ViewState) -> bool {
        match state {
            ViewState::New => self.new,
            ViewState::NotNew => self.not_new,
        }
    }

    /// Whether the set holds `state`.
    #[verifier::when_used_as_spec(spec_contains)]
    pub fn contains(&self, state: ViewState) -> (b: bool)
        ensures
            b == self.spec_contains(state),
    {
        match state {
            ViewState::New => self.new,
            ViewState::NotNew => self.not_new,
        }
    }

    /// The set of all view states.
    pub fn any() -> (m: ViewStateMask)
        ensures
            m == (ViewStateMask { new: true, not_new: true }),
            forall|s: ViewState| m.spec_contains(s),
    {
        ViewStateMask { new: true, not_new: true }
    }

    /// The set that holds `state` alone.
    pub fn only(state: ViewState) -> (m: ViewStateMask)
        ensures
            forall|s: ViewState| m.spec_contains(s) == (s == state),
    {
        match state {
            ViewState::New => ViewStateMask { new: true, not_new: false },
            ViewState::NotNew => ViewStateMask { new: false, not_new: true },
        }
    }
}

/// A set of instance states.
#[derive(Clone, Copy, Debug, PartialEq, Eq, Structural, Hash)]
pub struct InstanceStateMask {
    pub alive: bool,
    pub not_alive_disposed: bool,
    pub not_alive_no_writers: bool,
}

impl InstanceStateMask {
    /// Whether the set holds `state`.
    pub open spec fn spec_contains(&self, state: InstanceState) -> bool {
        match state {
            InstanceState::Alive => self.alive,
            InstanceState::NotAliveDisposed => self.not_alive_disposed,
            InstanceState::NotAliveNoWriters => self.not_alive_no_writers,
        }
    }

    /// Whether the set holds `state`.
    #[verifier::when_used_as_spec(spec_contains)]
    pub fn contains(&self, state: InstanceState) -> (b: bool)
        ensures
            b == self.spec_contains(state),
    {
        match state {
            InstanceState::Alive => self.alive,
            InstanceState::NotAliveDisposed => self.not_alive_disposed,
            InstanceState::NotAliveNoWriters => self.not_alive_no_writers,
        }
    }

    /// The set of all instance states.
    pub fn any() -> (m: InstanceStateMask)
        ensures
            m == (InstanceStateMask {
                alive: true,
                not_alive_disposed: true,
                not_alive_no_writers: true,
            }),
            forall|s: InstanceState| m.spec_contains(s),
    {
        InstanceStateMask { alive: true, not_alive_disposed: true, not_alive_no_writers: true }
    }

    /// The set of the two states in which an instance is not alive.
    pub fn not_alive() -> (m: InstanceStateMask)
        ensures
            forall|s: InstanceState| m.spec_contains(s) == (s != InstanceState::Alive),
    {
        InstanceStateMask { alive: false, not_alive_disposed: true, not_alive_no_writers: true }
    }

    /// The set that holds `state` alone.
    pub fn only(state: InstanceState) -> (m: InstanceStateMask)
        ensures
            forall|s: InstanceState| m.spec_contains(s) == (s == state),
    {
        match state {
            InstanceState::Alive => InstanceStateMask {
                alive: true,
                not_alive_disposed: false,
                not_alive_no_writers: false,
            },
            InstanceState::NotAliveDisposed => InstanceStateMask {
                alive: false,
                not_alive_disposed: true,
                not_alive_no_writers: false,
            },
            InstanceState::NotAliveNoWriters => InstanceStateMask {
                alive: false,
                not_alive_disposed: false,
                not_alive_no_writers: true,
            },
        }
    }
}

/// Largest value that a generation counter takes. A counter that has reached
/// it stays there, so that the sum of two counters fits in 32 bits.
pub const GENERATION_COUNT_MAX: i32 = 0x3fff_ffff;

/// How often an instance has come back to life: once counted for each
/// return from the disposed state, once for each return from the state
/// without writers.
#[derive(Clone, Copy, Debug, PartialEq, Eq, Structural, Hash)]
pub struct NotAliveGenerationCounts {
    pub disposed_generation_count: i32,
    pub no_writers_generation_count: i32,
}

impl NotAliveGenerationCounts {
    pub open spec fn spec_zero() -> NotAliveGenerationCounts {
        NotAliveGenerationCounts { disposed_generation_count: 0, no_writers_generation_count: 0 }
    }

    /// The counts of an instance that has never died.
    #[verifier::when_used_as_spec(spec_zero)]
    pub fn zero() -> (c: NotAliveGenerationCounts)
        ensures
            c == NotAliveGenerationCounts::spec_zero(),
    {
        NotAliveGenerationCounts { disposed_generation_count: 0, no_writers_generation_count: 0 }
    }

    pub open spec fn spec_sub_zero() -> NotAliveGenerationCounts {
        NotAliveGenerationCounts {
            disposed_generation_count: -1i32,
            no_writers_generation_count: -1i32,
        }
    }

    /// The marker for "never accessed": it lies below the counts of every
    /// sample.
    #[verifier::when_used_as_spec(spec_sub_zero)]
    pub fn sub_zero() -> (c: NotAliveGenerationCounts)
        ensures
            c == NotAliveGenerationCounts::spec_sub_zero(),
    {
        NotAliveGenerationCounts { disposed_generation_count: -1, no_writers_generation_count: -1 }
    }

    /// The sum of the two counts: the generation total.
    pub open spec fn spec_total(&self) -> int {
        self.disposed_generation_count as int + self.no_writers_generation_count as int
    }

    /// The generation total.
    pub fn total(&self) -> (t: i64)
        ensures
            t as int == self.spec_total(),
    {
        self.disposed_generation_count as i64 + self.no_writers_generation_count as i64
    }

    /// Whether both counts lie between `floor` and the largest count.
    pub open spec fn within(&self, floor: int) -> bool {
        &&& floor <= self.disposed_generation_count <= GENERATION_COUNT_MAX
        &&& floor <= self.no_writers_generation_count <= GENERATION_COUNT_MAX
    }
}

/// What the cache reports about one delivered sample.
#[derive(Clone, Copy, Debug, PartialEq, Eq)]
pub struct SampleInfo {
    /// Whether the sample had been read before this access.
    pub sample_state: SampleState,
    /// Whether the sample belongs to a generation not seen before this access.
    pub view_state: ViewState,
    /// State of the sample's instance at the time of this access.
    pub instance_state: InstanceState,
    /// Generation counts of the instance when the sample was received.
    pub generation_counts: NotAliveGenerationCounts,
    /// Number of more recent samples of the same instance in the same batch.
    pub sample_rank: i32,
    /// Generation difference to the most recent sample of the same instance
    /// in the same batch.
    pub generation_rank: i32,
    /// Generation difference to the most recent sample in the cache.
    pub absolute_generation_rank: i32,
    /// Time at which the writer produced the sample, when it said so.
    pub source_timestamp: Option<Timestamp>,
    /// The writer that produced the sample.
    pub publication_handle: GUID,
}

} // verus!

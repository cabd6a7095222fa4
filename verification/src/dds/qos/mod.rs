//! Quality-of-service policies of an entity.

pub mod policy;

use crate::dds::qos::policy::Deadline;
use crate::dds::qos::policy::DestinationOrder;
use crate::dds::qos::policy::Durability;
use crate::dds::qos::policy::History;
use crate::dds::qos::policy::LatencyBudget;
use crate::dds::qos::policy::Lifespan;
use crate::dds::qos::policy::Liveliness;
use crate::dds::qos::policy::Ownership;
use crate::dds::qos::policy::Presentation;
use crate::dds::qos::policy::PresentationAccessScope;
use crate::dds::qos::policy::Reliability;
use crate::dds::qos::policy::ResourceLimits;
use crate::dds::qos::policy::TimeBasedFilter;
use crate::structure::duration::Duration;
use vstd::prelude::*;

verus! {

/// The policies of one entity. A policy that is absent is inherited or
/// takes its default.
#[derive(Clone, Copy, Debug, PartialEq, Eq, Structural, Hash)]
pub struct QosPolicies {
    pub durability: Option<Durability>,
    pub presentation: Option<Presentation>,
    pub deadline: Option<Deadline>,
    pub latency_budget: Option<LatencyBudget>,
    pub ownership: Option<Ownership>,
    pub liveliness: Option<Liveliness>,
    pub time_based_filter: Option<TimeBasedFilter>,
    pub reliability: Option<Reliability>,
    pub destination_order: Option<DestinationOrder>,
    pub history: Option<History>,
    pub resource_limits: Option<ResourceLimits>,
    pub lifespan: Option<Lifespan>,
}

impl QosPolicies {
    pub open spec fn spec_qos_none() -> QosPolicies {
        QosPolicies {
            durability: None,
            presentation: None,
            deadline: None,
            latency_budget: None,
            ownership: None,
            liveliness: None,
            time_based_filter: None,
            reliability: None,
            destination_order: None,
            history: None,
            resource_limits: None,
            lifespan: None,
        }
    }

    /// The policies of an entity that states none.
    #[verifier::when_used_as_spec(spec_qos_none)]
    pub fn qos_none() -> (q: QosPolicies)
        ensures
            q == QosPolicies::spec_qos_none(),
    {
        QosPolicies {
            durability: None,
            presentation: None,
            deadline: None,
            latency_budget: None,
            ownership: None,
            liveliness: None,
            time_based_filter: None,
            reliability: None,
            destination_order: None,
            history: None,
            resource_limits: None,
            lifespan: None,
        }
    }

    /// The history policy, if stated.
    pub fn history(&self) -> (h: Option<History>)
        ensures
            h == self.history,
    {
        self.history
    }

    /// The reliability policy, if stated.
    pub fn reliability(&self) -> (r: Option<Reliability>)
        ensures
            r == self.reliability,
    {
        self.reliability
    }

    /// The liveliness policy, if stated.
    pub fn liveliness(&self) -> (l: Option<Liveliness>)
        ensures
            l == self.liveliness,
    {
        self.liveliness
    }

    /// The number of samples that a cache keeps of each instance, or `None`
    /// when it keeps all of them: the depth of a keep-last history; else the
    /// limit on samples per instance, where one is stated; else one sample,
    /// unless the history is stated as keep-all.
    pub open spec fn spec_keep_count(&self) -> Option<i32> {
        match self.history {
            Some(History::KeepLast { depth }) => Some(depth),
            Some(History::KeepAll) => match self.resource_limits {
                Some(limits) => Some(limits.max_samples_per_instance),
                None => None,
            },
            None => match self.resource_limits {
                Some(limits) => Some(limits.max_samples_per_instance),
                None => Some(1i32),
            },
        }
    }

    /// The number of samples that a cache keeps of each instance.
    #[verifier::when_used_as_spec(spec_keep_count)]
    pub fn keep_count(&self) -> (k: Option<i32>)
        ensures
            k == self.spec_keep_count(),
    {
        match self.history {
            Some(History::KeepLast { depth }) => Some(depth),
            Some(History::KeepAll) => match self.resource_limits {
                Some(limits) => Some(limits.max_samples_per_instance),
                None => None,
            },
            None => match self.resource_limits {
                Some(limits) => Some(limits.max_samples_per_instance),
                None => Some(1i32),
            },
        }
    }

    /// These policies with each policy that `other` states taken from
    /// `other`.
    pub open spec fn spec_modify_by(&self, other: &QosPolicies) -> QosPolicies {
        QosPolicies {
            durability: if other.durability is Some { other.durability } else { self.durability },
            presentation: if other.presentation is Some {
                other.presentation
            } else {
                self.presentation
            },
            deadline: if other.deadline is Some { other.deadline } else { self.deadline },
            latency_budget: if other.latency_budget is Some {
                other.latency_budget
            } else {
                self.latency_budget
            },
            ownership: if other.ownership is Some { other.ownership } else { self.ownership },
            liveliness: if other.liveliness is Some { other.liveliness } else { self.liveliness },
            time_based_filter: if other.time_based_filter is Some {
                other.time_based_filter
            } else {
                self.time_based_filter
            },
            reliability: if other.reliability is Some {
                other.reliability
            } else {
                self.reliability
            },
            destination_order: if other.destination_order is Some {
                other.destination_order
            } else {
                self.destination_order
            },
            history: if other.history is Some { other.history } else { self.history },
            resource_limits: if other.resource_limits is Some {
                other.resource_limits
            } else {
                self.resource_limits
            },
            lifespan: if other.lifespan is Some { other.lifespan } else { self.lifespan },
        }
    }

    /// The policies of an entity that inherits these and overrides them by
    /// what `other` states.
    pub fn modify_by(&self, other: &QosPolicies) -> (q: QosPolicies)
        ensures
            q == self.spec_modify_by(other),
    {
        QosPolicies {
            durability: if other.durability.is_some() {
                other.durability
            } else {
                self.durability
            },
            presentation: if other.presentation.is_some() {
                other.presentation
            } else {
                self.presentation
            },
            deadline: if other.deadline.is_some() { other.deadline } else { self.deadline },
            latency_budget: if other.latency_budget.is_some() {
                other.latency_budget
            } else {
                self.latency_budget
            },
            ownership: if other.ownership.is_some() { other.ownership } else { self.ownership },
            liveliness: if other.liveliness.is_some() {
                other.liveliness
            } else {
                self.liveliness
            },
            time_based_filter: if other.time_based_filter.is_some() {
                other.time_based_filter
            } else {
                self.time_based_filter
            },
            reliability: if other.reliability.is_some() {
                other.reliability
            } else {
                self.reliability
            },
            destination_order: if other.destination_order.is_some() {
                other.destination_order
            } else {
                self.destination_order
            },
            history: if other.history.is_some() { other.history } else { self.history },
            resource_limits: if other.resource_limits.is_some() {
                other.resource_limits
            } else {
                self.resource_limits
            },
            lifespan: if other.lifespan.is_some() { other.lifespan } else { self.lifespan },
        }
    }

    /// Whether a reader that requests `requested` may be matched with a
    /// writer that offers these policies: the reader asks for no stronger
    /// guarantee than the writer gives. An absent policy counts as its
    /// default.
    pub open spec fn spec_offer_satisfies(&self, requested: &QosPolicies) -> bool {
        &&& spec_reliability_rank(requested.reliability) <= spec_reliability_rank(self.reliability)
        &&& spec_durability_rank(requested.durability) <= spec_durability_rank(self.durability)
        &&& spec_deadline(self.deadline).ticks() <= spec_deadline(requested.deadline).ticks()
        &&& spec_latency(self.latency_budget).ticks() <= spec_latency(
            requested.latency_budget,
        ).ticks()
        &&& spec_ownership_exclusive(self.ownership) == spec_ownership_exclusive(
            requested.ownership,
        )
        &&& spec_liveliness(requested.liveliness).spec_rank() <= spec_liveliness(
            self.liveliness,
        ).spec_rank()
        &&& spec_liveliness(self.liveliness).spec_lease_duration().ticks() <= spec_liveliness(
            requested.liveliness,
        ).spec_lease_duration().ticks()
        &&& spec_destination_rank(requested.destination_order) <= spec_destination_rank(
            self.destination_order,
        )
        &&& spec_presentation(requested.presentation).access_scope.spec_rank()
            <= spec_presentation(self.presentation).access_scope.spec_rank()
        &&& (spec_presentation(requested.presentation).coherent_access ==> spec_presentation(
            self.presentation,
        ).coherent_access)
        &&& (spec_presentation(requested.presentation).ordered_access ==> spec_presentation(
            self.presentation,
        ).ordered_access)
    }

    /// Decides whether these offered policies satisfy the requested ones.
    pub fn offer_satisfies(&self, requested: &QosPolicies) -> (b: bool)
        ensures
            b == self.spec_offer_satisfies(requested),
    {
        let offered_reliability: u8 = match self.reliability {
            Some(r) => r.rank(),
            None => 0,
        };
        let requested_reliability: u8 = match requested.reliability {
            Some(r) => r.rank(),
            None => 0,
        };
        let offered_durability: u8 = match self.durability {
            Some(d) => d.rank(),
            None => 0,
        };
        let requested_durability: u8 = match requested.durability {
            Some(d) => d.rank(),
            None => 0,
        };
        let offered_deadline: Duration = match self.deadline {
            Some(d) => d.0,
            None => Duration::infinite(),
        };
        let requested_deadline: Duration = match requested.deadline {
            Some(d) => d.0,
            None => Duration::infinite(),
        };
        let offered_latency: Duration = match self.latency_budget {
            Some(l) => l.duration,
            None => Duration::zero(),
        };
        let requested_latency: Duration = match requested.latency_budget {
            Some(l) => l.duration,
            None => Duration::zero(),
        };
        let offered_exclusive: bool = match self.ownership {
            Some(Ownership::Exclusive { .. }) => true,
            _ => false,
        };
        let requested_exclusive: bool = match requested.ownership {
            Some(Ownership::Exclusive { .. }) => true,
            _ => false,
        };
        let offered_liveliness: Liveliness = match self.liveliness {
            Some(l) => l,
            None => Liveliness::Automatic { lease_duration: Duration::infinite() },
        };
        let requested_liveliness: Liveliness = match requested.liveliness {
            Some(l) => l,
            None => Liveliness::Automatic { lease_duration: Duration::infinite() },
        };
        let offered_order: u8 = match self.destination_order {
            Some(d) => d.rank(),
            None => 0,
        };
        let requested_order: u8 = match requested.destination_order {
            Some(d) => d.rank(),
            None => 0,
        };
        let offered_presentation: Presentation = match self.presentation {
            Some(p) => p,
            None => Presentation {
                access_scope: PresentationAccessScope::Instance,
                coherent_access: false,
                ordered_access: false,
            },
        };
        let requested_presentation: Presentation = match requested.presentation {
            Some(p) => p,
            None => Presentation {
                access_scope: PresentationAccessScope::Instance,
                coherent_access: false,
                ordered_access: false,
            },
        };
        requested_reliability <= offered_reliability && requested_durability
            <= offered_durability && offered_deadline.le(&requested_deadline)
            && offered_latency.le(&requested_latency) && offered_exclusive == requested_exclusive
            && requested_liveliness.rank() <= offered_liveliness.rank()
            && offered_liveliness.lease_duration().le(&requested_liveliness.lease_duration())
            && requested_order <= offered_order && requested_presentation.access_scope.rank()
            <= offered_presentation.access_scope.rank() && (!requested_presentation.coherent_access
            || offered_presentation.coherent_access) && (!requested_presentation.ordered_access
            || offered_presentation.ordered_access)
    }
}

/// Strength of a reliability policy; absent means best effort.
pub open spec fn spec_reliability_rank(r: Option<Reliability>) -> int {
    match r {
        Some(r) => r.spec_rank(),
        None => 0,
    }
}

/// Strength of a durability policy; absent means volatile.
pub open spec fn spec_durability_rank(d: Option<Durability>) -> int {
    match d {
        Some(d) => d.spec_rank(),
        None => 0,
    }
}

/// Strength of a destination order; absent means by reception.
pub open spec fn spec_destination_rank(d: Option<DestinationOrder>) -> int {
    match d {
        Some(d) => d.spec_rank(),
        None => 0,
    }
}

/// Period of a deadline policy; absent means no deadline.
pub open spec fn spec_deadline(d: Option<Deadline>) -> Duration {
    match d {
        Some(d) => d.0,
        None => Duration::spec_infinite(),
    }
}

/// Span of a latency budget; absent means none.
pub open spec fn spec_latency(l: Option<LatencyBudget>) -> Duration {
    match l {
        Some(l) => l.duration,
        None => Duration::spec_zero(),
    }
}

/// Whether an ownership policy is exclusive; absent means shared.
pub open spec fn spec_ownership_exclusive(o: Option<Ownership>) -> bool {
    match o {
        Some(Ownership::Exclusive { .. }) => true,
        _ => false,
    }
}

/// A liveliness policy; absent means automatic without end.
pub open spec fn spec_liveliness(l: Option<Liveliness>) -> Liveliness {
    match l {
        Some(l) => l,
        None => Liveliness::Automatic { lease_duration: Duration::spec_infinite() },
    }
}

/// A presentation policy; absent means per instance, neither coherent nor
/// ordered.
pub open spec fn spec_presentation(p: Option<Presentation>) -> Presentation {
    match p {
        Some(p) => p,
        None => Presentation {
            access_scope: PresentationAccessScope::Instance,
            coherent_access: false,
            ordered_access: false,
        },
    }
}

/// Collects policies one by one.
#[derive(Clone, Copy, Debug, PartialEq, Eq, Structural, Hash)]
pub struct QosPolicyBuilder {
    pub policies: QosPolicies,
}

impl QosPolicyBuilder {
    /// A builder that holds no policy yet.
    pub fn new() -> (b: QosPolicyBuilder)
        ensures
            b.policies == QosPolicies::spec_qos_none(),
    {
        QosPolicyBuilder { policies: QosPolicies::qos_none() }
    }

    /// States the durability.
    pub fn durability(self, durability: Durability) -> (b: QosPolicyBuilder)
        ensures
            b.policies == (QosPolicies { durability: Some(durability), ..self.policies }),
    {
        QosPolicyBuilder { policies: QosPolicies { durability: Some(durability), ..self.policies } }
    }

    /// States the presentation.
    pub fn presentation(self, presentation: Presentation) -> (b: QosPolicyBuilder)
        ensures
            b.policies == (QosPolicies { presentation: Some(presentation), ..self.policies }),
    {
        QosPolicyBuilder {
            policies: QosPolicies { presentation: Some(presentation), ..self.policies },
        }
    }

    /// States the deadline.
    pub fn deadline(self, deadline: Deadline) -> (b: QosPolicyBuilder)
        ensures
            b.policies == (QosPolicies { deadline: Some(deadline), ..self.policies }),
    {
        QosPolicyBuilder { policies: QosPolicies { deadline: Some(deadline), ..self.policies } }
    }

    /// States the latency budget.
    pub fn latency_budget(self, latency_budget: LatencyBudget) -> (b: QosPolicyBuilder)
        ensures
            b.policies == (QosPolicies { latency_budget: Some(latency_budget), ..self.policies }),
    {
        QosPolicyBuilder {
            policies: QosPolicies { latency_budget: Some(latency_budget), ..self.policies },
        }
    }

    /// States the ownership.
    pub fn ownership(self, ownership: Ownership) -> (b: QosPolicyBuilder)
        ensures
            b.policies == (QosPolicies { ownership: Some(ownership), ..self.policies }),
    {
        QosPolicyBuilder { policies: QosPolicies { ownership: Some(ownership), ..self.policies } }
    }

    /// States the liveliness.
    pub fn liveliness(self, liveliness: Liveliness) -> (b: QosPolicyBuilder)
        ensures
            b.policies == (QosPolicies { liveliness: Some(liveliness), ..self.policies }),
    {
        QosPolicyBuilder { policies: QosPolicies { liveliness: Some(liveliness), ..self.policies } }
    }

    /// States the time-based filter.
    pub fn time_based_filter(self, time_based_filter: TimeBasedFilter) -> (b: QosPolicyBuilder)
        ensures
            b.policies == (QosPolicies {
                time_based_filter: Some(time_based_filter),
                ..self.policies
            }),
    {
        QosPolicyBuilder {
            policies: QosPolicies { time_based_filter: Some(time_based_filter), ..self.policies },
        }
    }

    /// States the reliability.
    pub fn reliability(self, reliability: Reliability) -> (b: QosPolicyBuilder)
        ensures
            b.policies == (QosPolicies { reliability: Some(reliability), ..self.policies }),
    {
        QosPolicyBuilder {
            policies: QosPolicies { reliability: Some(reliability), ..self.policies },
        }
    }

    /// States the destination order.
    pub fn destination_order(self, destination_order: DestinationOrder) -> (b: QosPolicyBuilder)
        ensures
            b.policies == (QosPolicies {
                destination_order: Some(destination_order),
                ..self.policies
            }),
    {
        QosPolicyBuilder {
            policies: QosPolicies { destination_order: Some(destination_order), ..self.policies },
        }
    }

    /// States the history.
    pub fn history(self, history: History) -> (b: QosPolicyBuilder)
        ensures
            b.policies == (QosPolicies { history: Some(history), ..self.policies }),
    {
        QosPolicyBuilder { policies: QosPolicies { history: Some(history), ..self.policies } }
    }

    /// States the resource limits.
    pub fn resource_limits(self, resource_limits: ResourceLimits) -> (b: QosPolicyBuilder)
        ensures
            b.policies == (QosPolicies { resource_limits: Some(resource_limits), ..self.policies }),
    {
        QosPolicyBuilder {
            policies: QosPolicies { resource_limits: Some(resource_limits), ..self.policies },
        }
    }

    /// States the lifespan.
    pub fn lifespan(self, lifespan: Lifespan) -> (b: QosPolicyBuilder)
        ensures
            b.policies == (QosPolicies { lifespan: Some(lifespan), ..self.policies }),
    {
        QosPolicyBuilder { policies: QosPolicies { lifespan: Some(lifespan), ..self.policies } }
    }

    /// The policies collected so far.
    pub fn build(self) -> (q: QosPolicies)
        ensures
            q == self.policies,
    {
        self.policies
    }
}

} // verus!

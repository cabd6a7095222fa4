use crate::structure::cache_change::CacheChange;
use crate::structure::time::lemma_ticks_injective;
use crate::structure::time::Timestamp;
use vstd::prelude::*;

verus! {

/// Whether the values of a topic belong to instances named by a key.
#[derive(Debug, Clone, Copy, PartialEq, Eq, Structural, Hash)]
pub enum TopicKind {
    NoKey,
    WithKey,
}

/// Whether the changes stand in strictly increasing order of their
/// instants, so that an instant names at most one change.
pub open spec fn spec_changes_sorted(changes: Seq<(Timestamp, CacheChange)>) -> bool {
    forall|i: int, j: int|
        0 <= i < j < changes.len() ==> (#[trigger] changes[i]).0.ticks() < (
        #[trigger] changes[j]).0.ticks()
}

/// Position, at or after `from`, of the first change that is not before
/// `instant`; the length where all are before it.
pub open spec fn spec_first_since(
    changes: Seq<(Timestamp, CacheChange)>,
    instant: Timestamp,
    from: int,
) -> int
    decreases changes.len() - from,
{
    if from < 0 || from >= changes.len() || changes[from].0.ticks() >= instant.ticks() {
        from
    } else {
        spec_first_since(changes, instant, from + 1)
    }
}

/// The changes at or after `instant`.
pub open spec fn spec_since(changes: Seq<(Timestamp, CacheChange)>, instant: Timestamp) -> Seq<
    (Timestamp, CacheChange),
> {
    changes.skip(spec_first_since(changes, instant, 0))
}

/// The changes with `change` recorded at `instant`: in the place that the
/// order gives it, or in place of the change that stood at that instant.
pub open spec fn spec_put(
    changes: Seq<(Timestamp, CacheChange)>,
    instant: Timestamp,
    change: CacheChange,
) -> Seq<(Timestamp, CacheChange)> {
    let p = spec_first_since(changes, instant, 0);
    if p < changes.len() && changes[p].0 == instant {
        changes.update(p, (instant, change))
    } else {
        changes.insert(p, (instant, change))
    }
}

/// Whether a change is recorded at `instant`.
pub open spec fn spec_has_change(changes: Seq<(Timestamp, CacheChange)>, instant: Timestamp) -> bool {
    exists|i: int| 0 <= i < changes.len() && (#[trigger] changes[i]).0 == instant
}

/// The change recorded at `instant`.
pub open spec fn spec_change_at(changes: Seq<(Timestamp, CacheChange)>, instant: Timestamp) -> CacheChange {
    changes[choose|i: int| 0 <= i < changes.len() && (#[trigger] changes[i]).0 == instant].1
}

/// Where the first change at or after an instant stands: all changes
/// before that position are before the instant, and in an ordered history
/// all from it on are not.
pub proof fn lemma_first_since(changes: Seq<(Timestamp, CacheChange)>, instant: Timestamp, from: int)
    requires
        0 <= from <= changes.len(),
    ensures
        from <= spec_first_since(changes, instant, from) <= changes.len(),
        forall|k: int|
            from <= k < spec_first_since(changes, instant, from) ==> (#[trigger] changes[k]).0.ticks()
                < instant.ticks(),
        spec_first_since(changes, instant, from) < changes.len() ==> changes[spec_first_since(
            changes,
            instant,
            from,
        )].0.ticks() >= instant.ticks(),
        spec_changes_sorted(changes) ==> forall|k: int|
            spec_first_since(changes, instant, from) <= k < changes.len() ==> (
            #[trigger] changes[k]).0.ticks() >= instant.ticks(),
    decreases changes.len() - from,
{
    if from < changes.len() && changes[from].0.ticks() < instant.ticks() {
        lemma_first_since(changes, instant, from + 1);
    }
}

/// The history of one topic: its changes by the instant at which each was
/// recorded.
pub struct TopicCache {
    topic_name: String,
    topic_kind: TopicKind,
    data_type_name: String,
    changes: Vec<(Timestamp, CacheChange)>,
}

impl TopicCache {
    /// The name of the topic.
    pub closed spec fn name(&self) -> Seq<char> {
        self.topic_name@
    }

    /// The kind of the topic.
    pub closed spec fn kind(&self) -> TopicKind {
        self.topic_kind
    }

    /// The name of the type of the values of the topic.
    pub closed spec fn data_type(&self) -> Seq<char> {
        self.data_type_name@
    }

    /// The changes, in the order of their instants.
    pub closed spec fn changes(&self) -> Seq<(Timestamp, CacheChange)> {
        self.changes@
    }

    /// The invariant of the history: an instant names at most one change,
    /// and the changes stand in the order of their instants.
    pub open spec fn wf(&self) -> bool {
        spec_changes_sorted(self.changes())
    }

    /// The empty history of a topic.
    pub fn new(topic_name: String, topic_kind: TopicKind, data_type_name: String) -> (t: TopicCache)
        ensures
            t.wf(),
            t.name() == topic_name@,
            t.kind() == topic_kind,
            t.data_type() == data_type_name@,
            t.changes().len() == 0,
    {
        TopicCache { topic_name, topic_kind, data_type_name, changes: Vec::new() }
    }

    /// The name of the topic.
    pub fn get_name(&self) -> (name: &String)
        ensures
            name@ == self.name(),
    {
        &self.topic_name
    }

    /// The kind of the topic.
    pub fn get_kind(&self) -> (kind: TopicKind)
        ensures
            kind == self.kind(),
    {
        self.topic_kind
    }

    /// The name of the type of the values of the topic.
    pub fn get_type(&self) -> (name: &String)
        ensures
            name@ == self.data_type(),
    {
        &self.data_type_name
    }

    /// The number of changes held.
    pub fn len(&self) -> (n: usize)
        ensures
            n == self.changes().len(),
    {
        self.changes.len()
    }

    /// Position of the first change that is not before `instant`.
    fn first_since(&self, instant: Timestamp) -> (p: usize)
        ensures
            p == spec_first_since(self.changes(), instant, 0),
            p <= self.changes().len(),
    {
        let mut p: usize = 0;
        while p < self.changes.len() && self.changes[p].0.lt(&instant)
            invariant
                p <= self.changes.len(),
                spec_first_since(self.changes@, instant, 0) == spec_first_since(
                    self.changes@,
                    instant,
                    p as int,
                ),
            decreases self.changes.len() - p,
        {
            p += 1;
        }
        p
    }

    /// Records `change` at `instant`. A change that was recorded at that
    /// instant gives way to the new one.
    pub fn add_change(&mut self, instant: Timestamp, change: CacheChange)
        requires
            old(self).wf(),
        ensures
            final(self).wf(),
            final(self).changes() == spec_put(old(self).changes(), instant, change),
            final(self).name() == old(self).name(),
            final(self).kind() == old(self).kind(),
            final(self).data_type() == old(self).data_type(),
    {
        let p = self.first_since(instant);
        proof {
            lemma_first_since(self.changes@, instant, 0);
        }
        if p < self.changes.len() && self.changes[p].0 == instant {
            self.changes[p] = (instant, change);
        } else {
            proof {
                if p < self.changes.len() {
                    lemma_ticks_injective(self.changes@[p as int].0, instant);
                }
            }
            self.changes.insert(p, (instant, change));
        }
    }

    /// The change recorded at `instant`, if there is one.
    pub fn get_change(&self, instant: Timestamp) -> (c: Option<&CacheChange>)
        requires
            self.wf(),
        ensures
            c is Some == spec_has_change(self.changes(), instant),
            c matches Some(change) ==> *change == spec_change_at(self.changes(), instant),
    {
        let p = self.first_since(instant);
        proof {
            lemma_first_since(self.changes@, instant, 0);
        }
        if p < self.changes.len() && self.changes[p].0 == instant {
            proof {
                let i = choose|i: int|
                    0 <= i < self.changes@.len() && (#[trigger] self.changes@[i]).0 == instant;
                assert(i == p) by {
                    if i < p {
                        assert(self.changes@[i].0.ticks() < self.changes@[p as int].0.ticks());
                    }
                    if p < i {
                        assert(self.changes@[p as int].0.ticks() < self.changes@[i].0.ticks());
                    }
                }
            }
            Some(&self.changes[p].1)
        } else {
            proof {
                if spec_has_change(self.changes@, instant) {
                    let i = choose|i: int|
                        0 <= i < self.changes@.len() && (#[trigger] self.changes@[i]).0 == instant;
                    if i > p {
                        assert(self.changes@[p as int].0.ticks() < self.changes@[i].0.ticks());
                        lemma_ticks_injective(self.changes@[p as int].0, instant);
                    }
                }
            }
            None
        }
    }

    /// The changes at or after `instant`, in the order of their instants.
    pub fn get_changes_since(&self, instant: Timestamp) -> (r: Vec<(Timestamp, &CacheChange)>)
        ensures
            r@.len() == spec_since(self.changes(), instant).len(),
            forall|i: int|
                0 <= i < r@.len() ==> (#[trigger] r@[i]).0 == spec_since(self.changes(), instant)[i].0
                    && *r@[i].1 == spec_since(self.changes(), instant)[i].1,
    {
        let start = self.first_since(instant);
        let mut r: Vec<(Timestamp, &CacheChange)> = Vec::new();
        let mut i: usize = start;
        while i < self.changes.len()
            invariant
                start <= i <= self.changes.len(),
                start == spec_first_since(self.changes@, instant, 0),
                r@.len() == i - start,
                forall|k: int|
                    0 <= k < r@.len() ==> (#[trigger] r@[k]).0 == self.changes@[start + k].0
                        && *r@[k].1 == self.changes@[start + k].1,
            decreases self.changes.len() - i,
        {
            r.push((self.changes[i].0, &self.changes[i].1));
            i += 1;
        }
        r
    }

    /// Forgets the changes before `instant`.
    pub fn remove_changes_before(&mut self, instant: Timestamp)
        requires
            old(self).wf(),
        ensures
            final(self).wf(),
            final(self).changes() == spec_since(old(self).changes(), instant),
            final(self).name() == old(self).name(),
            final(self).kind() == old(self).kind(),
            final(self).data_type() == old(self).data_type(),
    {
        let p = self.first_since(instant);
        let kept = self.changes.split_off(p);
        self.changes = kept;
        assert(self.changes@ =~= spec_since(old(self).changes(), instant));
    }
}

/// The histories of all topics of a participant, by the name of the topic.
/// Writers record their changes here, and readers what they receive, so
/// that the readers of the participant see both.
pub struct DDSCache {
    topic_caches: Vec<TopicCache>,
}

impl DDSCache {
    /// The histories, in the order in which the topics were added.
    pub closed spec fn topics(&self) -> Seq<TopicCache> {
        self.topic_caches@
    }

    /// The invariant of the cache: a name stands for one topic, and each
    /// history is well formed.
    pub open spec fn wf(&self) -> bool {
        &&& forall|i: int, j: int|
            0 <= i < self.topics().len() && 0 <= j < self.topics().len() && i != j ==> (
            #[trigger] self.topics()[i]).name() != (#[trigger] self.topics()[j]).name()
        &&& forall|i: int| 0 <= i < self.topics().len() ==> (#[trigger] self.topics()[i]).wf()
    }

    /// Whether the topic `name` was added.
    pub open spec fn has_topic(&self, name: Seq<char>) -> bool {
        exists|i: int| 0 <= i < self.topics().len() && (#[trigger] self.topics()[i]).name() == name
    }

    /// Position of the topic `name`.
    pub open spec fn topic_index(&self, name: Seq<char>) -> int {
        choose|i: int| 0 <= i < self.topics().len() && (#[trigger] self.topics()[i]).name() == name
    }

    /// The history of the topic `name`.
    pub open spec fn topic(&self, name: Seq<char>) -> TopicCache {
        self.topics()[self.topic_index(name)]
    }

    /// Whether this cache is the cache `before` with nothing changed but
    /// the changes of the topic `name`.
    pub open spec fn same_but_changes_of(&self, before: DDSCache, name: Seq<char>) -> bool {
        &&& self.topics().len() == before.topics().len()
        &&& forall|n: Seq<char>| #[trigger] self.has_topic(n) == before.has_topic(n)
        &&& forall|n: Seq<char>|
            n != name && before.has_topic(n) ==> #[trigger] self.topic(n) == before.topic(n)
        &&& before.has_topic(name) ==> {
            &&& self.topic(name).kind() == before.topic(name).kind()
            &&& self.topic(name).data_type() == before.topic(name).data_type()
        }
    }

    /// In a well-formed cache a name has one position.
    pub proof fn lemma_topic_index(&self, i: int)
        requires
            self.wf(),
            0 <= i < self.topics().len(),
        ensures
            self.has_topic(self.topics()[i].name()),
            self.topic_index(self.topics()[i].name()) == i,
            self.topic(self.topics()[i].name()) == self.topics()[i],
    {
        let n = self.topics()[i].name();
        let c = self.topic_index(n);
        assert(self.topics()[c].name() == n);
    }

    /// A cache without topics.
    pub fn new() -> (c: DDSCache)
        ensures
            c.wf(),
            c.topics().len() == 0,
    {
        DDSCache { topic_caches: Vec::new() }
    }

    /// Position of the topic `name`, if it was added.
    pub fn find_topic(&self, name: &String) -> (r: Option<usize>)
        requires
            self.wf(),
        ensures
            match r {
                Some(i) => i < self.topics().len() && self.topics()[i as int].name() == name@
                    && self.has_topic(name@) && self.topic_index(name@) == i,
                None => !self.has_topic(name@),
            },
    {
        let mut i: usize = 0;
        while i < self.topic_caches.len()
            invariant
                self.wf(),
                i <= self.topic_caches.len(),
                forall|k: int| 0 <= k < i ==> (#[trigger] self.topic_caches@[k]).name() != name@,
            decreases self.topic_caches.len() - i,
        {
            if *self.topic_caches[i].get_name() == *name {
                proof {
                    self.lemma_topic_index(i as int);
                }
                return Some(i);
            }
            i += 1;
        }
        None
    }

    /// The history of the topic `name`, if it was added.
    pub fn get_topic(&self, name: &String) -> (r: Option<&TopicCache>)
        requires
            self.wf(),
        ensures
            r is Some == self.has_topic(name@),
            r matches Some(t) ==> *t == self.topic(name@),
    {
        match self.find_topic(name) {
            Some(i) => Some(&self.topic_caches[i]),
            None => None,
        }
    }

    /// Adds the topic `name` with an empty history, and tells whether it
    /// did: a topic that was added before stays as it is.
    pub fn add_topic(&mut self, name: String, kind: TopicKind, data_type_name: String) -> (added: bool)
        requires
            old(self).wf(),
        ensures
            final(self).wf(),
            added == !old(self).has_topic(name@),
            !added ==> *final(self) == *old(self),
            added ==> {
                &&& final(self).topics().len() == old(self).topics().len() + 1
                &&& final(self).has_topic(name@)
                &&& final(self).topic(name@).kind() == kind
                &&& final(self).topic(name@).data_type() == data_type_name@
                &&& final(self).topic(name@).changes().len() == 0
                &&& forall|n: Seq<char>|
                    n != name@ ==> #[trigger] final(self).has_topic(n) == old(self).has_topic(n)
                &&& forall|n: Seq<char>|
                    old(self).has_topic(n) ==> #[trigger] final(self).topic(n) == old(self).topic(n)
            },
    {
        if self.find_topic(&name).is_some() {
            return false;
        }
        let ghost before = self.topic_caches@;
        let ghost wanted = name@;
        let topic = TopicCache::new(name, kind, data_type_name);
        self.topic_caches.push(topic);
        proof {
            let last = before.len() as int;
            assert(self.topics()[last].name() == wanted);
            assert forall|i: int, j: int|
                0 <= i < self.topics().len() && 0 <= j < self.topics().len() && i != j implies (
            #[trigger] self.topics()[i]).name() != (#[trigger] self.topics()[j]).name() by {
                if i < last {
                    assert(self.topics()[i] == before[i]);
                }
                if j < last {
                    assert(self.topics()[j] == before[j]);
                }
            }
            assert forall|i: int| 0 <= i < self.topics().len() implies (
            #[trigger] self.topics()[i]).wf() by {
                if i < last {
                    assert(self.topics()[i] == before[i]);
                }
            }
            self.lemma_topic_index(last);
            assert forall|n: Seq<char>| n != wanted implies #[trigger] self.has_topic(n) == old(
                self,
            ).has_topic(n) by {
                if self.has_topic(n) {
                    let i = self.topic_index(n);
                    assert(before[i].name() == n);
                }
                if old(self).has_topic(n) {
                    let i = old(self).topic_index(n);
                    assert(self.topics()[i].name() == n);
                }
            }
            assert forall|n: Seq<char>| old(self).has_topic(n) implies #[trigger] self.topic(n)
                == old(self).topic(n) by {
                let i = old(self).topic_index(n);
                assert(self.topics()[i] == before[i]);
                self.lemma_topic_index(i);
            }
        }
        true
    }

    /// What holds of a cache in which one history was replaced by another
    /// of the same topic.
    proof fn lemma_replaced(&self, before: DDSCache, i: int)
        requires
            before.wf(),
            0 <= i < before.topics().len(),
            self.topics() == before.topics().update(i, self.topics()[i]),
            self.topics()[i].wf(),
            self.topics()[i].name() == before.topics()[i].name(),
            self.topics()[i].kind() == before.topics()[i].kind(),
            self.topics()[i].data_type() == before.topics()[i].data_type(),
        ensures
            self.wf(),
            self.same_but_changes_of(before, before.topics()[i].name()),
            self.topic(before.topics()[i].name()) == self.topics()[i],
    {
        let name = before.topics()[i].name();
        assert forall|a: int, b: int|
            0 <= a < self.topics().len() && 0 <= b < self.topics().len() && a != b implies (
        #[trigger] self.topics()[a]).name() != (#[trigger] self.topics()[b]).name() by {
            assert(self.topics()[a].name() == before.topics()[a].name());
            assert(self.topics()[b].name() == before.topics()[b].name());
        }
        assert forall|a: int| 0 <= a < self.topics().len() implies (#[trigger] self.topics()[a]).wf() by {
            if a != i {
                assert(self.topics()[a] == before.topics()[a]);
            }
        }
        assert forall|n: Seq<char>| #[trigger] self.has_topic(n) == before.has_topic(n) by {
            if self.has_topic(n) {
                let a = self.topic_index(n);
                assert(before.topics()[a].name() == n);
            }
            if before.has_topic(n) {
                let a = before.topic_index(n);
                assert(self.topics()[a].name() == n);
            }
        }
        assert forall|n: Seq<char>| n != name && before.has_topic(n) implies #[trigger] self.topic(n)
            == before.topic(n) by {
            let a = before.topic_index(n);
            assert(self.topics()[a] == before.topics()[a]);
            self.lemma_topic_index(a);
        }
        before.lemma_topic_index(i);
        self.lemma_topic_index(i);
    }

    /// Records `change` at `instant` in the history of the topic `name`,
    /// and tells whether the topic is known; nothing is recorded for a
    /// topic that was not added.
    pub fn add_change(&mut self, name: &String, instant: Timestamp, change: CacheChange) -> (known:
        bool)
        requires
            old(self).wf(),
        ensures
            final(self).wf(),
            known == old(self).has_topic(name@),
            !known ==> *final(self) == *old(self),
            known ==> final(self).same_but_changes_of(*old(self), name@) && final(self).topic(
                name@,
            ).changes() == spec_put(old(self).topic(name@).changes(), instant, change),
    {
        match self.find_topic(name) {
            Some(i) => {
                self.topic_caches[i].add_change(instant, change);
                proof {
                    old(self).lemma_topic_index(i as int);
                    assert(self.topics() =~= old(self).topics().update(i as int, self.topics()[i as int]));
                    self.lemma_replaced(*old(self), i as int);
                }
                true
            },
            None => false,
        }
    }

    /// The changes of the topic `name` at or after `instant`, in the order
    /// of their instants; none for a topic that was not added.
    pub fn get_changes_since(&self, name: &String, instant: Timestamp) -> (r: Vec<
        (Timestamp, &CacheChange),
    >)
        requires
            self.wf(),
        ensures
            !self.has_topic(name@) ==> r@.len() == 0,
            self.has_topic(name@) ==> {
                let since = spec_since(self.topic(name@).changes(), instant);
                &&& r@.len() == since.len()
                &&& forall|i: int|
                    0 <= i < r@.len() ==> (#[trigger] r@[i]).0 == since[i].0 && *r@[i].1
                        == since[i].1
            },
    {
        match self.find_topic(name) {
            Some(i) => self.topic_caches[i].get_changes_since(instant),
            None => Vec::new(),
        }
    }

    /// Forgets the changes of the topic `name` before `instant`.
    pub fn remove_changes_before(&mut self, name: &String, instant: Timestamp)
        requires
            old(self).wf(),
        ensures
            final(self).wf(),
            !old(self).has_topic(name@) ==> *final(self) == *old(self),
            old(self).has_topic(name@) ==> final(self).same_but_changes_of(*old(self), name@)
                && final(self).topic(name@).changes() == spec_since(
                old(self).topic(name@).changes(),
                instant,
            ),
    {
        match self.find_topic(name) {
            Some(i) => {
                self.topic_caches[i].remove_changes_before(instant);
                proof {
                    old(self).lemma_topic_index(i as int);
                    assert(self.topics() =~= old(self).topics().update(i as int, self.topics()[i as int]));
                    self.lemma_replaced(*old(self), i as int);
                }
            },
            None => {},
        }
    }
}

/// Position of an entry of the history before the change, in the history
/// after it.
pub open spec fn spec_moved(p: int, replaced: bool, a: int) -> int {
    if replaced || a < p {
        a
    } else {
        a + 1
    }
}

/// How the history after a change relates to the history before it:
/// the new change stands at its position, and every other entry stands
/// where it was or one further.
proof fn lemma_put_entries(changes: Seq<(Timestamp, CacheChange)>, instant: Timestamp, change: CacheChange)
    requires
        spec_changes_sorted(changes),
    ensures
        ({
            let after = spec_put(changes, instant, change);
            let p = spec_first_since(changes, instant, 0);
            let replaced = p < changes.len() && changes[p].0 == instant;
            &&& 0 <= p <= changes.len()
            &&& p < after.len()
            &&& after[p] == (instant, change)
            &&& after.len() == if replaced {
                changes.len()
            } else {
                changes.len() + 1
            }
            &&& forall|a: int|
                0 <= a < changes.len() && !(replaced && a == p) ==> after[spec_moved(p, replaced, a)]
                    == #[trigger] changes[a]
            &&& forall|a: int|
                0 <= a < p ==> (#[trigger] changes[a]).0.ticks() < instant.ticks()
            &&& forall|a: int|
                p <= a < changes.len() && !(replaced && a == p) ==> (#[trigger] changes[a]).0.ticks()
                    > instant.ticks()
        }),
{
    let p = spec_first_since(changes, instant, 0);
    lemma_first_since(changes, instant, 0);
    if p < changes.len() {
        lemma_ticks_injective(changes[p].0, instant);
        assert forall|a: int| p < a < changes.len() implies (#[trigger] changes[a]).0.ticks()
            > instant.ticks() by {
            assert(changes[p].0.ticks() < changes[a].0.ticks());
        }
    }
}

/// An ordered history stays ordered where a change is recorded.
proof fn lemma_put_sorted(changes: Seq<(Timestamp, CacheChange)>, instant: Timestamp, change: CacheChange)
    requires
        spec_changes_sorted(changes),
    ensures
        spec_changes_sorted(spec_put(changes, instant, change)),
{
    let after = spec_put(changes, instant, change);
    let p = spec_first_since(changes, instant, 0);
    let replaced = p < changes.len() && changes[p].0 == instant;
    lemma_put_entries(changes, instant, change);
    assert forall|i: int, j: int| 0 <= i < j < after.len() implies (#[trigger] after[i]).0.ticks() < (
    #[trigger] after[j]).0.ticks() by {
        let a = if replaced || i < p {
            i
        } else {
            i - 1
        };
        let b = if replaced || j < p {
            j
        } else {
            j - 1
        };
        if i != p {
            assert(spec_moved(p, replaced, a) == i);
            assert(after[i] == changes[a]);
        }
        if j != p {
            assert(spec_moved(p, replaced, b) == j);
            assert(after[j] == changes[b]);
        }
        if i != p && j != p {
            assert(changes[a].0.ticks() < changes[b].0.ticks());
        }
    }
}

/// An ordered history stays ordered where a change is recorded, and holds
/// the new change at its instant and every other change where it was.
pub proof fn law_put_keeps_order(
    changes: Seq<(Timestamp, CacheChange)>,
    instant: Timestamp,
    change: CacheChange,
    other: Timestamp,
)
    requires
        spec_changes_sorted(changes),
    ensures
        spec_changes_sorted(spec_put(changes, instant, change)),
        spec_has_change(spec_put(changes, instant, change), instant),
        spec_change_at(spec_put(changes, instant, change), instant) == change,
        other != instant ==> spec_has_change(spec_put(changes, instant, change), other)
            == spec_has_change(changes, other),
        other != instant && spec_has_change(changes, other) ==> spec_change_at(
            spec_put(changes, instant, change),
            other,
        ) == spec_change_at(changes, other),
{
    let after = spec_put(changes, instant, change);
    let p = spec_first_since(changes, instant, 0);
    let replaced = p < changes.len() && changes[p].0 == instant;
    lemma_put_entries(changes, instant, change);
    lemma_put_sorted(changes, instant, change);
    lemma_unique_instant(after, p);
    if other != instant {
        if spec_has_change(changes, other) {
            let a = choose|i: int| 0 <= i < changes.len() && (#[trigger] changes[i]).0 == other;
            let b = spec_moved(p, replaced, a);
            assert(after[b] == changes[a]);
            lemma_unique_instant(after, b);
        }
        if spec_has_change(after, other) {
            let b = choose|i: int| 0 <= i < after.len() && (#[trigger] after[i]).0 == other;
            let a = if replaced || b < p {
                b
            } else {
                b - 1
            };
            assert(spec_moved(p, replaced, a) == b);
            assert(changes[a] == after[b]);
        }
    }
}

/// In an ordered history the change at a position is the change at its
/// instant.
pub proof fn lemma_unique_instant(changes: Seq<(Timestamp, CacheChange)>, i: int)
    requires
        spec_changes_sorted(changes),
        0 <= i < changes.len(),
    ensures
        spec_has_change(changes, changes[i].0),
        spec_change_at(changes, changes[i].0) == changes[i].1,
{
    let c = choose|c: int| 0 <= c < changes.len() && (#[trigger] changes[c]).0 == changes[i].0;
    if c < i {
        assert(changes[c].0.ticks() < changes[i].0.ticks());
    }
    if i < c {
        assert(changes[i].0.ticks() < changes[c].0.ticks());
    }
}

/// What is forgotten and what is kept part the history at the instant:
/// the changes kept are those at or after it, each where the order puts
/// it.
pub proof fn law_since_keeps_the_later(changes: Seq<(Timestamp, CacheChange)>, instant: Timestamp, other: Timestamp)
    requires
        spec_changes_sorted(changes),
    ensures
        spec_changes_sorted(spec_since(changes, instant)),
        spec_has_change(spec_since(changes, instant), other) == (spec_has_change(changes, other)
            && other.ticks() >= instant.ticks()),
        spec_has_change(spec_since(changes, instant), other) ==> spec_change_at(
            spec_since(changes, instant),
            other,
        ) == spec_change_at(changes, other),
{
    let since = spec_since(changes, instant);
    let p = spec_first_since(changes, instant, 0);
    lemma_first_since(changes, instant, 0);
    assert forall|i: int, j: int| 0 <= i < j < since.len() implies (#[trigger] since[i]).0.ticks() < (
    #[trigger] since[j]).0.ticks() by {
        assert(since[i] == changes[p + i]);
        assert(since[j] == changes[p + j]);
    }
    if spec_has_change(since, other) {
        let b = choose|i: int| 0 <= i < since.len() && (#[trigger] since[i]).0 == other;
        assert(since[b] == changes[p + b]);
        lemma_unique_instant(changes, p + b);
        lemma_unique_instant(since, b);
    }
    if spec_has_change(changes, other) && other.ticks() >= instant.ticks() {
        let a = choose|i: int| 0 <= i < changes.len() && (#[trigger] changes[i]).0 == other;
        assert(a >= p);
        assert(since[a - p] == changes[a]);
    }
}

} // verus!

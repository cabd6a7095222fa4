use crate::dds::rtps_writer_proxy::RtpsWriterProxy;
use crate::structure::cache_change::CacheChange;
use crate::structure::dds_cache::spec_put;
use crate::structure::dds_cache::DDSCache;
use crate::structure::guid::GuidPrefix;
use crate::structure::guid::GUID;
use crate::structure::sequence_number::SequenceNumber;
use crate::structure::sequence_number::SequenceNumberSet;
use crate::structure::sequence_number::SEQUENCE_NUMBER_SET_MAX;
use crate::structure::time::Timestamp;
use vstd::prelude::*;

verus! {

/// Those among the first `n` proxies whose writers do not belong to the
/// participant `prefix`, in their order.
pub open spec fn spec_kept_writers(writers: Seq<RtpsWriterProxy>, prefix: GuidPrefix, n: int) -> Seq<
    RtpsWriterProxy,
>
    decreases n,
{
    if n <= 0 {
        Seq::empty()
    } else if writers[n - 1].guid().guid_prefix == prefix {
        spec_kept_writers(writers, prefix, n - 1)
    } else {
        spec_kept_writers(writers, prefix, n - 1).push(writers[n - 1])
    }
}

/// The writers among the first `n` proxies that belong to the participant
/// `prefix`, in their order.
pub open spec fn spec_lost_writers(writers: Seq<RtpsWriterProxy>, prefix: GuidPrefix, n: int) -> Seq<
    GUID,
>
    decreases n,
{
    if n <= 0 {
        Seq::empty()
    } else if writers[n - 1].guid().guid_prefix == prefix {
        spec_lost_writers(writers, prefix, n - 1).push(writers[n - 1].guid())
    } else {
        spec_lost_writers(writers, prefix, n - 1)
    }
}

/// The proxies kept are the proxies of the writers of other participants:
/// each of them was there before, and each such proxy is kept.
pub proof fn lemma_kept_writers(writers: Seq<RtpsWriterProxy>, prefix: GuidPrefix, n: int)
    requires
        0 <= n <= writers.len(),
    ensures
        forall|a: int|
            0 <= a < spec_kept_writers(writers, prefix, n).len() ==> exists|b: int|
                0 <= b < n && #[trigger] writers[b] == (#[trigger] spec_kept_writers(
                    writers,
                    prefix,
                    n,
                )[a]) && writers[b].guid().guid_prefix != prefix,
        forall|b: int|
            0 <= b < n && (#[trigger] writers[b]).guid().guid_prefix != prefix ==> exists|a: int|
                0 <= a < spec_kept_writers(writers, prefix, n).len() && #[trigger] spec_kept_writers(
                    writers,
                    prefix,
                    n,
                )[a] == writers[b],
    decreases n,
{
    if n > 0 {
        lemma_kept_writers(writers, prefix, n - 1);
        let less = spec_kept_writers(writers, prefix, n - 1);
        let kept = spec_kept_writers(writers, prefix, n);
        assert forall|a: int| 0 <= a < kept.len() implies exists|b: int|
            0 <= b < n && #[trigger] writers[b] == (#[trigger] kept[a]) && writers[b].guid().guid_prefix
                != prefix by {
            if a < less.len() {
                let b = choose|b: int|
                    0 <= b < n - 1 && #[trigger] writers[b] == less[a] && writers[b].guid().guid_prefix
                        != prefix;
                assert(writers[b] == kept[a]);
            } else {
                assert(writers[n - 1] == kept[a]);
            }
        }
        assert forall|b: int|
            0 <= b < n && (#[trigger] writers[b]).guid().guid_prefix != prefix implies exists|a: int|
            0 <= a < kept.len() && #[trigger] kept[a] == writers[b] by {
            if b < n - 1 {
                let a = choose|a: int| 0 <= a < less.len() && #[trigger] less[a] == writers[b];
                assert(kept[a] == writers[b]);
            } else {
                assert(kept[kept.len() - 1] == writers[b]);
            }
        }
    }
}

/// Of proxies for different writers, those kept are for different
/// writers.
pub proof fn lemma_kept_writers_distinct(writers: Seq<RtpsWriterProxy>, prefix: GuidPrefix, n: int)
    requires
        0 <= n <= writers.len(),
        forall|i: int, j: int|
            0 <= i < writers.len() && 0 <= j < writers.len() && i != j ==> (
            #[trigger] writers[i]).guid() != (#[trigger] writers[j]).guid(),
    ensures
        forall|i: int, j: int|
            0 <= i < spec_kept_writers(writers, prefix, n).len() && 0 <= j < spec_kept_writers(
                writers,
                prefix,
                n,
            ).len() && i != j ==> (#[trigger] spec_kept_writers(writers, prefix, n)[i]).guid() != (
            #[trigger] spec_kept_writers(writers, prefix, n)[j]).guid(),
    decreases n,
{
    if n > 0 {
        lemma_kept_writers_distinct(writers, prefix, n - 1);
        lemma_kept_writers(writers, prefix, n - 1);
        let less = spec_kept_writers(writers, prefix, n - 1);
        let kept = spec_kept_writers(writers, prefix, n);
        assert forall|i: int, j: int|
            0 <= i < kept.len() && 0 <= j < kept.len() && i != j implies (#[trigger] kept[i]).guid() != (
        #[trigger] kept[j]).guid() by {
            if i < less.len() && j < less.len() {
                assert(less[i].guid() != less[j].guid());
            } else {
                let a = if i < less.len() {
                    i
                } else {
                    j
                };
                let b = choose|b: int|
                    0 <= b < n - 1 && #[trigger] writers[b] == less[a] && writers[b].guid().guid_prefix
                        != prefix;
                assert(writers[b].guid() != writers[n - 1].guid());
            }
        }
    }
}

/// The receiving side of the protocol: what a reader knows of its matched
/// writers. A best-effort reader keeps no books.
pub struct Reader {
    my_guid: GUID,
    is_reliable: bool,
    matched_writers: Vec<RtpsWriterProxy>,
}

impl Reader {
    /// The identifier of the reader.
    pub closed spec fn guid(&self) -> GUID {
        self.my_guid
    }

    /// Whether the reader takes part in the reliable protocol.
    pub closed spec fn reliable(&self) -> bool {
        self.is_reliable
    }

    /// What the reader knows of its matched writers.
    pub closed spec fn writers(&self) -> Seq<RtpsWriterProxy> {
        self.matched_writers@
    }

    /// The invariant of the reader: each matched writer has one proxy, and
    /// each proxy is well formed.
    pub open spec fn wf(&self) -> bool {
        &&& forall|i: int, j: int|
            0 <= i < self.writers().len() && 0 <= j < self.writers().len() && i != j ==> (
            #[trigger] self.writers()[i]).guid() != (#[trigger] self.writers()[j]).guid()
        &&& forall|i: int| 0 <= i < self.writers().len() ==> (#[trigger] self.writers()[i]).wf()
    }

    /// Whether the reader has a proxy of the writer `guid`.
    pub open spec fn has_writer(&self, guid: GUID) -> bool {
        exists|i: int| 0 <= i < self.writers().len() && (#[trigger] self.writers()[i]).guid() == guid
    }

    /// Position of the proxy of the writer `guid`.
    pub open spec fn writer_index(&self, guid: GUID) -> int {
        choose|i: int| 0 <= i < self.writers().len() && (#[trigger] self.writers()[i]).guid() == guid
    }

    /// What the reader knows of the writer `guid`.
    pub open spec fn writer(&self, guid: GUID) -> RtpsWriterProxy {
        self.writers()[self.writer_index(guid)]
    }

    /// Whether this reader is the reader `before` with nothing changed but
    /// what it knows of the writer `guid`.
    pub open spec fn same_but_writer(&self, before: Reader, guid: GUID) -> bool {
        &&& self.guid() == before.guid()
        &&& self.reliable() == before.reliable()
        &&& self.writers().len() == before.writers().len()
        &&& self.has_writer(guid) == before.has_writer(guid)
        &&& before.has_writer(guid) ==> self.writer_index(guid) == before.writer_index(guid)
        &&& forall|i: int|
            0 <= i < before.writers().len() && (#[trigger] before.writers()[i]).guid() != guid
                ==> self.writers()[i] == before.writers()[i]
    }

    /// In a well-formed reader a writer has one proxy.
    pub proof fn lemma_writer_index(&self, i: int)
        requires
            self.wf(),
            0 <= i < self.writers().len(),
        ensures
            self.has_writer(self.writers()[i].guid()),
            self.writer_index(self.writers()[i].guid()) == i,
    {
        let g = self.writers()[i].guid();
        let c = self.writer_index(g);
        assert(self.writers()[c].guid() == g);
    }

    /// A reader without matched writers.
    pub fn new(guid: GUID, is_reliable: bool) -> (r: Reader)
        ensures
            r.wf(),
            r.guid() == guid,
            r.reliable() == is_reliable,
            r.writers().len() == 0,
    {
        Reader { my_guid: guid, is_reliable, matched_writers: Vec::new() }
    }

    /// Whether the reader takes part in the reliable protocol.
    pub fn is_reliable(&self) -> (b: bool)
        ensures
            b == self.reliable(),
    {
        self.is_reliable
    }

    /// Position of the proxy of the writer `guid`, if it is matched.
    pub fn find_writer(&self, guid: GUID) -> (r: Option<usize>)
        requires
            self.wf(),
        ensures
            match r {
                Some(i) => i < self.writers().len() && self.writers()[i as int].guid() == guid
                    && self.has_writer(guid) && self.writer_index(guid) == i,
                None => !self.has_writer(guid),
            },
    {
        let mut i: usize = 0;
        while i < self.matched_writers.len()
            invariant
                self.wf(),
                i <= self.matched_writers.len(),
                forall|k: int| 0 <= k < i ==> (#[trigger] self.matched_writers@[k]).guid() != guid,
            decreases self.matched_writers.len() - i,
        {
            if self.matched_writers[i].remote_writer_guid() == guid {
                proof {
                    self.lemma_writer_index(i as int);
                }
                return Some(i);
            }
            i += 1;
        }
        None
    }

    /// The proxy of the writer `guid`, if it is matched.
    pub fn matched_writer(&self, guid: GUID) -> (r: Option<&RtpsWriterProxy>)
        requires
            self.wf(),
        ensures
            match r {
                Some(p) => self.has_writer(guid) && *p == self.writer(guid),
                None => !self.has_writer(guid),
            },
    {
        match self.find_writer(guid) {
            Some(i) => Some(&self.matched_writers[i]),
            None => None,
        }
    }

    /// Takes a writer as matched, unless it is matched already.
    pub fn matched_writer_add(&mut self, proxy: RtpsWriterProxy) -> (added: bool)
        requires
            old(self).wf(),
            proxy.wf(),
        ensures
            final(self).wf(),
            final(self).guid() == old(self).guid(),
            final(self).reliable() == old(self).reliable(),
            added == !old(self).has_writer(proxy.guid()),
            added ==> final(self).writers() == old(self).writers().push(proxy),
            !added ==> final(self).writers() == old(self).writers(),
            final(self).has_writer(proxy.guid()),
            added ==> final(self).writer(proxy.guid()) == proxy,
    {
        match self.find_writer(proxy.remote_writer_guid()) {
            Some(_) => false,
            None => {
                let ghost before = self.matched_writers@;
                self.matched_writers.push(proxy);
                proof {
                    let now = self.matched_writers@;
                    let last = before.len() as int;
                    assert(now[last] == proxy);
                    assert forall|a: int| 0 <= a < last implies (#[trigger] before[a]).guid()
                        != proxy.guid() by {
                        if before[a].guid() == proxy.guid() {
                            assert(old(self).writers()[a].guid() == proxy.guid());
                            assert(old(self).has_writer(proxy.guid()));
                        }
                    }
                    assert forall|a: int, b: int|
                        0 <= a < now.len() && 0 <= b < now.len() && a != b implies (
                    #[trigger] now[a]).guid() != (#[trigger] now[b]).guid() by {
                        if a < last {
                            assert(now[a] == old(self).writers()[a]);
                        }
                        if b < last {
                            assert(now[b] == old(self).writers()[b]);
                        }
                        if a < last && b < last {
                            assert(old(self).writers()[a].guid() != old(self).writers()[b].guid());
                        }
                    }
                    assert forall|a: int| 0 <= a < now.len() implies (#[trigger] now[a]).wf() by {
                        if a < last {
                            assert(now[a] == old(self).writers()[a]);
                            assert(old(self).writers()[a].wf());
                        }
                    }
                    self.lemma_writer_index(last);
                }
                true
            },
        }
    }

    /// Forgets the writer `guid`.
    pub fn matched_writer_remove(&mut self, guid: GUID) -> (removed: bool)
        requires
            old(self).wf(),
        ensures
            final(self).wf(),
            final(self).guid() == old(self).guid(),
            final(self).reliable() == old(self).reliable(),
            removed == old(self).has_writer(guid),
            !final(self).has_writer(guid),
            removed ==> final(self).writers() == old(self).writers().remove(
                old(self).writer_index(guid),
            ),
            !removed ==> final(self).writers() == old(self).writers(),
    {
        match self.find_writer(guid) {
            None => false,
            Some(i) => {
                let ghost before = self.matched_writers@;
                let _gone = self.matched_writers.remove(i);
                proof {
                    let now = self.matched_writers@;
                    assert forall|a: int| 0 <= a < now.len() implies #[trigger] now[a] == before[if a
                        < i {
                        a
                    } else {
                        a + 1
                    }] by {}
                    assert forall|a: int, b: int|
                        0 <= a < now.len() && 0 <= b < now.len() && a != b implies (
                    #[trigger] now[a]).guid() != (#[trigger] now[b]).guid() by {
                        let a0 = if a < i {
                            a
                        } else {
                            a + 1
                        };
                        let b0 = if b < i {
                            b
                        } else {
                            b + 1
                        };
                        assert(now[a] == before[a0]);
                        assert(now[b] == before[b0]);
                    }
                    assert forall|a: int| 0 <= a < now.len() implies (#[trigger] now[a]).wf() by {
                        let a0 = if a < i {
                            a
                        } else {
                            a + 1
                        };
                        assert(now[a] == before[a0]);
                    }
                    if self.has_writer(guid) {
                        let a = self.writer_index(guid);
                        let a0 = if a < i {
                            a
                        } else {
                            a + 1
                        };
                        assert(now[a] == before[a0]);
                        assert(before[a0].guid() == before[i as int].guid());
                    }
                }
                true
            },
        }
    }

    /// Forgets the writers of the participant `guid_prefix`, which is
    /// lost, and gives them, so that the caches of the topic can be told.
    pub fn participant_lost(&mut self, guid_prefix: GuidPrefix) -> (lost: Vec<GUID>)
        requires
            old(self).wf(),
        ensures
            final(self).wf(),
            final(self).guid() == old(self).guid(),
            final(self).reliable() == old(self).reliable(),
            final(self).writers() == spec_kept_writers(
                old(self).writers(),
                guid_prefix,
                old(self).writers().len() as int,
            ),
            lost@ == spec_lost_writers(
                old(self).writers(),
                guid_prefix,
                old(self).writers().len() as int,
            ),
            forall|g: GUID| #[trigger]
                final(self).has_writer(g) <==> old(self).has_writer(g) && g.guid_prefix
                    != guid_prefix,
    {
        let mut before: Vec<RtpsWriterProxy> = Vec::new();
        core::mem::swap(&mut self.matched_writers, &mut before);
        let mut lost: Vec<GUID> = Vec::new();
        let ghost all = before@;
        for proxy in it: before
            invariant
                it.seq() == all,
                all == old(self).writers(),
                self.my_guid == old(self).my_guid,
                self.is_reliable == old(self).is_reliable,
                self.matched_writers@ == spec_kept_writers(all, guid_prefix, it.index() as int),
                lost@ == spec_lost_writers(all, guid_prefix, it.index() as int),
        {
            if proxy.remote_writer_guid().guid_prefix == guid_prefix {
                lost.push(proxy.remote_writer_guid());
            } else {
                self.matched_writers.push(proxy);
            }
        }
        proof {
            let n = all.len() as int;
            lemma_kept_writers(all, guid_prefix, n);
            lemma_kept_writers_distinct(all, guid_prefix, n);
            let kept = spec_kept_writers(all, guid_prefix, n);
            assert forall|i: int| 0 <= i < kept.len() implies (#[trigger] kept[i]).wf() by {
                let b = choose|b: int|
                    0 <= b < n && #[trigger] all[b] == kept[i] && all[b].guid().guid_prefix
                        != guid_prefix;
                assert(all[b].wf());
            }
            assert forall|g: GUID| #[trigger]
                self.has_writer(g) <==> old(self).has_writer(g) && g.guid_prefix != guid_prefix by {
                assert(self.writers() == kept);
                if self.has_writer(g) {
                    let a = self.writer_index(g);
                    assert(kept[a].guid() == g);
                    let b = choose|b: int|
                        0 <= b < n && #[trigger] all[b] == kept[a] && all[b].guid().guid_prefix
                            != guid_prefix;
                    assert(old(self).writers()[b].guid() == g);
                    assert(old(self).has_writer(g));
                }
                if old(self).has_writer(g) && g.guid_prefix != guid_prefix {
                    let b = old(self).writer_index(g);
                    assert(all[b].guid() == g);
                    assert(all[b].guid().guid_prefix != guid_prefix);
                    let a = choose|a: int| 0 <= a < kept.len() && #[trigger] kept[a] == all[b];
                    assert(self.writers()[a].guid() == g);
                    assert(self.has_writer(g));
                }
            }
        }
        lost
    }

    /// What `handle_data` does to a reader: `after` is the reader `before`
    /// with the number `sn` of the writer settled, and `deliver` tells
    /// whether the change is new to it.
    pub open spec fn spec_data_handled(
        before: Reader,
        after: Reader,
        writer_guid: GUID,
        sn: SequenceNumber,
        deliver: bool,
    ) -> bool {
        &&& after.same_but_writer(before, writer_guid)
        &&& !before.reliable() ==> deliver && after.writers() == before.writers()
        &&& before.reliable() && !before.has_writer(writer_guid) ==> !deliver && after.writers() == before.writers()
        &&& before.reliable() && before.has_writer(writer_guid) ==> {
            let known = before.writer(writer_guid);
            let now = after.writer(writer_guid);
            &&& deliver == (sn.value >= 1 && !known.is_settled(sn.value as int))
            &&& forall|x: int|
                #![trigger now.is_settled(x)]
                now.is_settled(x) <==> known.is_settled(x) || (x == sn.value && sn.value >= 1)
            &&& now.highest_received_sn() == if sn.value > known.highest_received_sn() {
                sn.value as int
            } else {
                known.highest_received_sn()
            }
            &&& now.highest_continuous_sn() >= known.highest_continuous_sn()
            &&& now.last_heartbeat_count() == known.last_heartbeat_count()
            &&& now.acknack_count() == known.acknack_count()
        }
    }

    /// Decides whether the change with the number `sn` that arrived from
    /// the writer `writer_guid` is to be delivered.
    ///
    /// A best-effort reader delivers every change at once. A reliable
    /// reader delivers a change of a matched writer unless its number is
    /// settled already, and records the number as settled.
    pub fn handle_data(&mut self, writer_guid: GUID, sn: SequenceNumber) -> (deliver: bool)
        requires
            old(self).wf(),
        ensures
            final(self).wf(),
            Self::spec_data_handled(*old(self), *final(self), writer_guid, sn, deliver),
    {
        if !self.is_reliable {
            return true;
        }
        let i = match self.find_writer(writer_guid) {
            Some(i) => i,
            None => {
                return false;
            },
        };
        let ghost before = self.matched_writers@;
        let deliver = self.matched_writers[i].received_changes_add(sn);
        proof {
            self.lemma_after_update(*old(self), i as int);
        }
        deliver
    }

    /// Takes in a change that arrived at `receive_timestamp`, and tells
    /// whether it is to be delivered. The books of the reader are kept as
    /// `handle_data` keeps them. A change to be delivered is recorded at
    /// that instant in the history of the topic `topic`, where the cache
    /// has that topic; else the cache stays as it is.
    pub fn receive_change(
        &mut self,
        cache: &mut DDSCache,
        topic: &String,
        receive_timestamp: Timestamp,
        change: CacheChange,
    ) -> (deliver: bool)
        requires
            old(self).wf(),
            old(cache).wf(),
        ensures
            final(self).wf(),
            final(cache).wf(),
            Self::spec_data_handled(
                *old(self),
                *final(self),
                change.writer_guid,
                change.sequence_number,
                deliver,
            ),
            !(deliver && old(cache).has_topic(topic@)) ==> *final(cache) == *old(cache),
            deliver && old(cache).has_topic(topic@) ==> final(cache).same_but_changes_of(
                *old(cache),
                topic@,
            ) && final(cache).topic(topic@).changes() == spec_put(
                old(cache).topic(topic@).changes(),
                receive_timestamp,
                change,
            ),
    {
        let deliver = self.handle_data(change.writer_guid, change.sequence_number);
        if deliver {
            cache.add_change(topic, receive_timestamp, change);
        }
        deliver
    }

    /// After the proxy at position `i` was changed without a change of its
    /// writer, the reader is well formed and differs in that proxy alone.
    proof fn lemma_after_update(&self, before: Reader, i: int)
        requires
            before.wf(),
            0 <= i < before.writers().len(),
            self.guid() == before.guid(),
            self.reliable() == before.reliable(),
            self.writers().len() == before.writers().len(),
            self.writers()[i].wf(),
            self.writers()[i].guid() == before.writers()[i].guid(),
            forall|a: int|
                0 <= a < before.writers().len() && a != i ==> #[trigger] self.writers()[a]
                    == before.writers()[a],
        ensures
            self.wf(),
            self.same_but_writer(before, before.writers()[i].guid()),
            self.has_writer(before.writers()[i].guid()),
            self.writer_index(before.writers()[i].guid()) == i,
            before.writer_index(before.writers()[i].guid()) == i,
    {
        let now = self.writers();
        let old_w = before.writers();
        assert forall|a: int, b: int|
            0 <= a < now.len() && 0 <= b < now.len() && a != b implies (#[trigger] now[a]).guid() != (
        #[trigger] now[b]).guid() by {
            assert(old_w[a].guid() != old_w[b].guid());
            if a != i {
                assert(now[a] == old_w[a]);
            }
            if b != i {
                assert(now[b] == old_w[b]);
            }
        }
        assert forall|a: int| 0 <= a < now.len() implies (#[trigger] now[a]).wf() by {
            if a != i {
                assert(now[a] == old_w[a]);
            }
        }
        before.lemma_writer_index(i);
        self.lemma_writer_index(i);
        assert forall|a: int|
            0 <= a < old_w.len() && (#[trigger] old_w[a]).guid() != old_w[i].guid() implies now[a]
            == old_w[a] by {
            assert(a != i);
        }
    }

    /// Takes note that the writer `writer_guid` will not send the changes
    /// whose numbers the set lists. A best-effort reader keeps no books of
    /// it.
    pub fn handle_gap(&mut self, writer_guid: GUID, gap: &SequenceNumberSet)
        requires
            old(self).wf(),
            gap.wf(),
        ensures
            final(self).wf(),
            final(self).same_but_writer(*old(self), writer_guid),
            !old(self).reliable() || !old(self).has_writer(writer_guid) ==> final(self).writers()
                == old(self).writers(),
            old(self).reliable() && old(self).has_writer(writer_guid) ==> {
                let before = old(self).writer(writer_guid);
                let after = final(self).writer(writer_guid);
                &&& forall|x: int|
                    #![trigger after.is_settled(x)]
                    after.is_settled(x) <==> before.is_settled(x) || (x >= 1 && gap.spec_contains(
                        x,
                    ))
                &&& after.highest_continuous_sn() >= before.highest_continuous_sn()
                &&& after.last_heartbeat_count() == before.last_heartbeat_count()
                &&& after.acknack_count() == before.acknack_count()
            },
    {
        if !self.is_reliable {
            return ;
        }
        let i = match self.find_writer(writer_guid) {
            Some(i) => i,
            None => {
                return ;
            },
        };
        let ghost before = self.matched_writers@[i as int];
        self.matched_writers[i].irrelevant_changes_set(gap);
        proof {
            self.lemma_after_update(*old(self), i as int);
            let after = self.matched_writers@[i as int];
            assert(old(self).writer(writer_guid) == before);
            assert(self.writer(writer_guid) == after);
        }
    }

    /// Takes note of a heartbeat of the writer `writer_guid`, and makes the
    /// acknowledgement that is to be sent in return, if one is.
    ///
    /// A best-effort reader never acknowledges. A reliable reader drops a
    /// heartbeat of a writer that is not matched and one that repeats a
    /// count. On a new heartbeat it acknowledges unless the heartbeat is
    /// final and nothing is missing: the base of the acknowledgement is
    /// the first number that is not settled, and its set lists the missing
    /// numbers among the 256 from the base on.
    pub fn handle_heartbeat(
        &mut self,
        writer_guid: GUID,
        first_sn: SequenceNumber,
        last_sn: SequenceNumber,
        count: i32,
        is_final: bool,
    ) -> (acknack: Option<(SequenceNumberSet, i32)>)
        requires
            old(self).wf(),
        ensures
            final(self).wf(),
            final(self).same_but_writer(*old(self), writer_guid),
            !old(self).reliable() || !old(self).has_writer(writer_guid) ==> acknack is None
                && final(self).writers() == old(self).writers(),
            old(self).reliable() && old(self).has_writer(writer_guid) ==> {
                let before = old(self).writer(writer_guid);
                let after = final(self).writer(writer_guid);
                let accepted = (before.last_heartbeat_count() matches Some(c) ==> count > c);
                &&& !accepted ==> acknack is None && after.highest_continuous_sn()
                    == before.highest_continuous_sn() && after.highest_received_sn()
                    == before.highest_received_sn() && after.settled_beyond()
                    == before.settled_beyond() && after.last_heartbeat_count()
                    == before.last_heartbeat_count() && after.acknack_count()
                    == before.acknack_count()
                &&& accepted ==> {
                    &&& after.last_heartbeat_count() == Some(count)
                    &&& forall|x: int|
                        #![trigger after.is_settled(x)]
                        after.is_settled(x) <==> before.is_settled(x) || (1 <= x < first_sn.value)
                    &&& after.highest_received_sn() == vstd::math::max(
                        vstd::math::max(before.highest_received_sn(), last_sn.value as int),
                        first_sn.value - 1,
                    )
                    &&& acknack is Some <==> (!is_final || after.highest_continuous_sn()
                        < after.highest_received_sn()) && after.highest_continuous_sn() < i64::MAX
                    &&& acknack matches Some((set, n)) ==> {
                        &&& set.wf()
                        &&& set.base.value == after.highest_continuous_sn() + 1
                        &&& set.bits@.len() == vstd::math::min(
                            SEQUENCE_NUMBER_SET_MAX as int,
                            after.highest_received_sn() - after.highest_continuous_sn(),
                        )
                        &&& forall|x: int|
                            set.spec_contains(x) <==> after.is_missing(x) && x < set.base.value
                                + SEQUENCE_NUMBER_SET_MAX
                        &&& n == after.acknack_count()
                        &&& after.acknack_count() == if before.acknack_count() < i32::MAX {
                            before.acknack_count() + 1
                        } else {
                            before.acknack_count()
                        }
                    }
                    &&& acknack is None ==> after.acknack_count() == before.acknack_count()
                }
            },
    {
        if !self.is_reliable {
            return None;
        }
        let i = match self.find_writer(writer_guid) {
            Some(i) => i,
            None => {
                return None;
            },
        };
        let response = self.matched_writers[i].handle_heartbeat(first_sn, last_sn, count, is_final);
        proof {
            self.lemma_after_update(*old(self), i as int);
        }
        if !response.acknack_needed {
            return None;
        }
        if self.matched_writers[i].get_highest_continuous_sn().value == i64::MAX {
            return None;
        }
        let ghost middle = *self;
        let ghost heard = self.matched_writers@[i as int];
        let acknack = self.matched_writers[i].make_acknack();
        proof {
            self.lemma_after_update(middle, i as int);
            let after = self.matched_writers@[i as int];
            assert forall|x: int| after.is_settled(x) <==> heard.is_settled(x) by {}
            assert forall|x: int| after.is_missing(x) <==> heard.is_missing(x) by {}
            assert forall|a: int|
                0 <= a < old(self).writers().len() && (#[trigger] old(self).writers()[a]).guid()
                    != writer_guid implies self.writers()[a] == old(self).writers()[a] by {
                assert(middle.writers()[a] == old(self).writers()[a]);
            }
        }
        Some(acknack)
    }
}

} // verus!

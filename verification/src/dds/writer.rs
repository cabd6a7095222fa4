use crate::dds::ddsdata::DDSData;
use crate::dds::rtps_reader_proxy::RtpsReaderProxy;
use crate::dds::rtps_writer_proxy::spec_increasing;
use crate::dds::rtps_writer_proxy::spec_listed;
use crate::dds::values::result::Error;
use crate::dds::values::result::Result;
use crate::messages::submessages::gap::Gap;
use crate::messages::submessages::heartbeat::Heartbeat;
use crate::structure::cache_change::CacheChange;
use crate::structure::dds_cache::spec_put;
use crate::structure::dds_cache::DDSCache;
use crate::structure::duration::Duration;
use crate::structure::guid::EntityId;
use crate::structure::guid::GuidPrefix;
use crate::structure::guid::GUID;
use crate::structure::sequence_number::SequenceNumber;
use crate::structure::sequence_number::SequenceNumberSet;
use crate::structure::time::Timestamp;
use vstd::prelude::*;

verus! {

/// What a writer does on an acknowledgement.
pub struct AckNackResponse {
    /// Whether the acknowledgement was taken note of. One from an unknown
    /// or a best-effort reader, or with a count that is not above the last
    /// one accepted from the reader, is not.
    pub accepted: bool,
    /// The numbers of the changes to send again: those that the reader
    /// misses and the writer still has.
    pub retransmit: Vec<i64>,
    /// The numbers to report as gone: those that the reader misses and the
    /// writer has no more.
    pub gaps: Vec<i64>,
}

impl AckNackResponse {
    /// The report of the numbers that are gone, for the reader that asked
    /// for them; none where no number is gone.
    ///
    /// The report starts at the first of the numbers and names those of
    /// them that stand within 256 numbers from it.
    pub fn gap(&self, reader_id: EntityId, writer_id: EntityId) -> (r: Option<Gap>)
        ensures
            r is None <==> self.gaps@.len() == 0,
            r matches Some(g) ==> {
                &&& g.reader_id == reader_id
                &&& g.writer_id == writer_id
                &&& g.gap_start.value == self.gaps@[0]
                &&& g.gap_list.wf()
                &&& forall|x: int| #[trigger]
                    g.spec_covers(x) <==> spec_listed(self.gaps@, x) && self.gaps@[0] <= x
                        < self.gaps@[0] + 256
            },
    {
        if self.gaps.len() == 0 {
            return None;
        }
        let first: i64 = self.gaps[0];
        let mut width: usize = 1;
        let mut i: usize = 0;
        while i < self.gaps.len()
            invariant
                i <= self.gaps@.len(),
                first == self.gaps@[0],
                1 <= width <= 256,
                first + width - 1 <= i64::MAX,
                forall|k: int|
                    0 <= k < i && first <= (#[trigger] self.gaps@[k]) < first + 256
                        ==> self.gaps@[k] - first < width,
            decreases self.gaps@.len() - i,
        {
            let offset: i128 = self.gaps[i] as i128 - first as i128;
            if 0 <= offset && offset < 256 && offset + 1 > width as i128 {
                width = (offset + 1) as usize;
            }
            i += 1;
        }
        let mut bits: Vec<bool> = Vec::new();
        let mut j: usize = 0;
        while j < width
            invariant
                j <= width,
                bits@.len() == j,
                forall|b: int| 0 <= b < j ==> !bits@[b],
            decreases width - j,
        {
            bits.push(false);
            j += 1;
        }
        let mut i: usize = 0;
        while i < self.gaps.len()
            invariant
                i <= self.gaps@.len(),
                first == self.gaps@[0],
                bits@.len() == width,
                width <= 256,
                forall|k: int|
                    0 <= k < self.gaps@.len() && first <= (#[trigger] self.gaps@[k]) < first + 256
                        ==> self.gaps@[k] - first < width,
                forall|b: int|
                    0 <= b < width ==> (#[trigger] bits@[b] <==> exists|k: int|
                        0 <= k < i && #[trigger] self.gaps@[k] == first + b),
            decreases self.gaps@.len() - i,
        {
            let offset: i128 = self.gaps[i] as i128 - first as i128;
            if 0 <= offset && offset < 256 {
                let ghost before = bits@;
                bits[offset as usize] = true;
                proof {
                    assert forall|b: int| 0 <= b < width implies (#[trigger] bits@[b] <==> exists|
                        k: int,
                    |
                        0 <= k < i + 1 && #[trigger] self.gaps@[k] == first + b) by {
                        if b == offset {
                            assert(self.gaps@[i as int] == first + b);
                        } else {
                            assert(bits@[b] == before[b]);
                            if before[b] {
                                let k = choose|k: int|
                                    0 <= k < i && #[trigger] self.gaps@[k] == first + b;
                                assert(self.gaps@[k] == first + b);
                            }
                        }
                    }
                }
            }
            i += 1;
        }
        let gap = Gap {
            reader_id,
            writer_id,
            gap_start: SequenceNumber { value: first },
            gap_list: SequenceNumberSet { base: SequenceNumber { value: first }, bits },
        };
        proof {
            assert forall|x: int| #[trigger]
                gap.spec_covers(x) <==> spec_listed(self.gaps@, x) && self.gaps@[0] <= x
                    < self.gaps@[0] + 256 by {
                if gap.spec_covers(x) {
                    let k = choose|k: int|
                        0 <= k < self.gaps@.len() && #[trigger] self.gaps@[k] == first + (x - first);
                    assert(self.gaps@[k] == x);
                }
                if spec_listed(self.gaps@, x) && first <= x < first + 256 {
                    let k = choose|k: int| 0 <= k < self.gaps@.len() && #[trigger] self.gaps@[k] == x;
                    assert(self.gaps@[k] - first < width);
                    assert(self.gaps@[k] == first + (x - first));
                }
            }
        }
        Some(gap)
    }
}

/// Whether an acknowledgement with the count `count` is new to a reader
/// proxy that accepted the count `last` before.
pub open spec fn spec_acknack_is_new(last: Option<i32>, count: i32) -> bool {
    match last {
        Some(c) => count > c,
        None => true,
    }
}

/// The number up to which a reader has acknowledged after an
/// acknowledgement with the base `base`: all below the base, but no more
/// than the writer has produced, and no less than before.
pub open spec fn spec_acked_after(before: int, base: int, last_sn: int) -> int {
    let told = if base - 1 > last_sn {
        last_sn
    } else {
        base - 1
    };
    if told > before {
        told
    } else {
        before
    }
}

/// The least number that a writer keeps after it has produced `last_sn`,
/// where it kept the numbers from `first_sn` on and keeps at most `depth`
/// changes.
pub open spec fn spec_first_after(first_sn: int, last_sn: int, depth: Option<usize>) -> int {
    match depth {
        Some(d) => if last_sn - first_sn + 1 > d {
            last_sn - d + 1
        } else {
            first_sn
        },
        None => first_sn,
    }
}

/// A count after `n` more steps: it goes up by one with each and stays at
/// the largest count.
pub open spec fn spec_count_after(counter: int, n: int) -> int {
    if counter + n <= i32::MAX {
        counter + n
    } else {
        i32::MAX as int
    }
}

/// The heartbeats of a round for the first `n` proxies: one for each
/// reliable reader, in the order of the proxies, which tells the numbers
/// from `first_sn` to `last_sn` and carries the next count after
/// `counter`.
pub open spec fn spec_heartbeats_due(
    readers: Seq<RtpsReaderProxy>,
    n: int,
    writer: GUID,
    first_sn: int,
    last_sn: int,
    counter: int,
) -> Seq<(GUID, Heartbeat)>
    decreases n,
{
    if n <= 0 {
        Seq::empty()
    } else {
        let before = spec_heartbeats_due(readers, n - 1, writer, first_sn, last_sn, counter);
        if readers[n - 1].is_reliable {
            before.push(
                (
                    readers[n - 1].remote_reader_guid,
                    Heartbeat {
                        reader_id: readers[n - 1].remote_reader_guid.entity_id,
                        writer_id: writer.entity_id,
                        first_sn: SequenceNumber { value: first_sn as i64 },
                        last_sn: SequenceNumber { value: last_sn as i64 },
                        count: spec_count_after(counter, before.len() as int + 1) as i32,
                    },
                ),
            )
        } else {
            before
        }
    }
}

/// Those among the first `n` proxies whose readers do not belong to the
/// participant `prefix`, in their order.
pub open spec fn spec_kept_readers(readers: Seq<RtpsReaderProxy>, prefix: GuidPrefix, n: int) -> Seq<
    RtpsReaderProxy,
>
    decreases n,
{
    if n <= 0 {
        Seq::empty()
    } else if readers[n - 1].remote_reader_guid.guid_prefix == prefix {
        spec_kept_readers(readers, prefix, n - 1)
    } else {
        spec_kept_readers(readers, prefix, n - 1).push(readers[n - 1])
    }
}

/// The proxies kept are the proxies of the readers of other participants:
/// each of them was there before, and each such proxy is kept.
pub proof fn lemma_kept_readers(readers: Seq<RtpsReaderProxy>, prefix: GuidPrefix, n: int)
    requires
        0 <= n <= readers.len(),
    ensures
        forall|a: int|
            0 <= a < spec_kept_readers(readers, prefix, n).len() ==> exists|b: int|
                0 <= b < n && #[trigger] readers[b] == (#[trigger] spec_kept_readers(
                    readers,
                    prefix,
                    n,
                )[a]) && readers[b].remote_reader_guid.guid_prefix != prefix,
        forall|b: int|
            0 <= b < n && (#[trigger] readers[b]).remote_reader_guid.guid_prefix != prefix
                ==> exists|a: int|
                0 <= a < spec_kept_readers(readers, prefix, n).len() && #[trigger] spec_kept_readers(
                    readers,
                    prefix,
                    n,
                )[a] == readers[b],
    decreases n,
{
    if n > 0 {
        lemma_kept_readers(readers, prefix, n - 1);
        let less = spec_kept_readers(readers, prefix, n - 1);
        let kept = spec_kept_readers(readers, prefix, n);
        assert forall|a: int| 0 <= a < kept.len() implies exists|b: int|
            0 <= b < n && #[trigger] readers[b] == (#[trigger] kept[a])
                && readers[b].remote_reader_guid.guid_prefix != prefix by {
            if a < less.len() {
                let b = choose|b: int|
                    0 <= b < n - 1 && #[trigger] readers[b] == less[a]
                        && readers[b].remote_reader_guid.guid_prefix != prefix;
                assert(readers[b] == kept[a]);
            } else {
                assert(readers[n - 1] == kept[a]);
            }
        }
        assert forall|b: int|
            0 <= b < n && (#[trigger] readers[b]).remote_reader_guid.guid_prefix
                != prefix implies exists|a: int|
            0 <= a < kept.len() && #[trigger] kept[a] == readers[b] by {
            if b < n - 1 {
                let a = choose|a: int| 0 <= a < less.len() && #[trigger] less[a] == readers[b];
                assert(kept[a] == readers[b]);
            } else {
                assert(kept[kept.len() - 1] == readers[b]);
            }
        }
    }
}

/// Of proxies for different readers, those kept are for different
/// readers.
pub proof fn lemma_kept_readers_distinct(readers: Seq<RtpsReaderProxy>, prefix: GuidPrefix, n: int)
    requires
        0 <= n <= readers.len(),
        forall|i: int, j: int|
            0 <= i < readers.len() && 0 <= j < readers.len() && i != j ==> (
            #[trigger] readers[i]).remote_reader_guid != (#[trigger] readers[j]).remote_reader_guid,
    ensures
        forall|i: int, j: int|
            0 <= i < spec_kept_readers(readers, prefix, n).len() && 0 <= j < spec_kept_readers(
                readers,
                prefix,
                n,
            ).len() && i != j ==> (#[trigger] spec_kept_readers(
                readers,
                prefix,
                n,
            )[i]).remote_reader_guid != (#[trigger] spec_kept_readers(
                readers,
                prefix,
                n,
            )[j]).remote_reader_guid,
    decreases n,
{
    if n > 0 {
        lemma_kept_readers_distinct(readers, prefix, n - 1);
        lemma_kept_readers(readers, prefix, n - 1);
        let less = spec_kept_readers(readers, prefix, n - 1);
        let kept = spec_kept_readers(readers, prefix, n);
        assert forall|i: int, j: int|
            0 <= i < kept.len() && 0 <= j < kept.len() && i != j implies (
        #[trigger] kept[i]).remote_reader_guid != (#[trigger] kept[j]).remote_reader_guid by {
            if i < less.len() && j < less.len() {
                assert(less[i].remote_reader_guid != less[j].remote_reader_guid);
            } else {
                let a = if i < less.len() {
                    i
                } else {
                    j
                };
                let b = choose|b: int|
                    0 <= b < n - 1 && #[trigger] readers[b] == less[a]
                        && readers[b].remote_reader_guid.guid_prefix != prefix;
                assert(readers[b].remote_reader_guid != readers[n - 1].remote_reader_guid);
            }
        }
    }
}

/// The sending side of the reliable protocol: the history of a writer, and
/// what it knows of its matched readers.
pub struct Writer {
    my_guid: GUID,
    depth: Option<usize>,
    first_sn: i64,
    last_sn: i64,
    history: Vec<CacheChange>,
    readers: Vec<RtpsReaderProxy>,
    heartbeat_counter: i32,
    heartbeat_period: Duration,
    next_heartbeat_at: Timestamp,
}

impl Writer {
    /// The identifier of the writer.
    pub closed spec fn guid(&self) -> GUID {
        self.my_guid
    }

    /// How many changes the writer keeps at most; all where `None`.
    pub closed spec fn depth(&self) -> Option<usize> {
        self.depth
    }

    /// The least sequence number that the writer still has.
    pub closed spec fn first_sn(&self) -> int {
        self.first_sn as int
    }

    /// The sequence number that the writer produced last; zero before the
    /// first.
    pub closed spec fn last_sn(&self) -> int {
        self.last_sn as int
    }

    /// The changes that the writer still has, in the order of their
    /// sequence numbers.
    pub closed spec fn history(&self) -> Seq<CacheChange> {
        self.history@
    }

    /// What the writer knows of its matched readers.
    pub closed spec fn readers(&self) -> Seq<RtpsReaderProxy> {
        self.readers@
    }

    /// The count of the last heartbeat.
    pub closed spec fn heartbeat_counter(&self) -> int {
        self.heartbeat_counter as int
    }

    /// The time between two rounds of heartbeats.
    pub closed spec fn heartbeat_period(&self) -> Duration {
        self.heartbeat_period
    }

    /// When the next round of heartbeats is due.
    pub closed spec fn next_heartbeat_at(&self) -> Timestamp {
        self.next_heartbeat_at
    }

    /// The invariant of the writer: its history holds the changes with the
    /// numbers from the first to the last without a gap, each matched
    /// reader has one proxy, and no reader has acknowledged more than was
    /// produced.
    pub open spec fn wf(&self) -> bool {
        &&& 1 <= self.first_sn() <= self.last_sn() + 1
        &&& self.history().len() == self.last_sn() - self.first_sn() + 1
        &&& self.depth() matches Some(d) ==> d >= 1
        &&& forall|i: int|
            0 <= i < self.history().len() ==> (#[trigger] self.history()[i]).sequence_number.value
                == self.first_sn() + i && self.history()[i].writer_guid == self.guid()
        &&& forall|i: int, j: int|
            0 <= i < self.readers().len() && 0 <= j < self.readers().len() && i != j ==> (
            #[trigger] self.readers()[i]).remote_reader_guid != (
            #[trigger] self.readers()[j]).remote_reader_guid
        &&& forall|i: int|
            0 <= i < self.readers().len() ==> 0 <= (#[trigger] self.readers()[i]).highest_acked
                <= self.last_sn()
    }

    /// The change with the number `sn`, for a number that the writer has.
    pub open spec fn spec_change(&self, sn: int) -> CacheChange {
        self.history()[sn - self.first_sn()]
    }

    /// Whether the writer has a proxy of the reader `guid`.
    pub open spec fn has_reader(&self, guid: GUID) -> bool {
        exists|i: int|
            0 <= i < self.readers().len() && (#[trigger] self.readers()[i]).remote_reader_guid == guid
    }

    /// Position of the proxy of the reader `guid`.
    pub open spec fn reader_index(&self, guid: GUID) -> int {
        choose|i: int|
            0 <= i < self.readers().len() && (#[trigger] self.readers()[i]).remote_reader_guid == guid
    }

    /// A writer without history and without readers. It keeps at most
    /// `depth` changes, at least one; all where `depth` is `None`. The
    /// first round of heartbeats is due one period after `now`.
    pub fn new(guid: GUID, depth: Option<usize>, heartbeat_period: Duration, now: Timestamp) -> (w:
        Writer)
        ensures
            w.wf(),
            w.guid() == guid,
            w.depth() == match depth {
                Some(d) => Some(if d >= 1 {
                    d
                } else {
                    1usize
                }),
                None => None,
            },
            w.first_sn() == 1,
            w.last_sn() == 0,
            w.history().len() == 0,
            w.readers().len() == 0,
            w.heartbeat_counter() == 0,
            w.heartbeat_period() == heartbeat_period,
            w.next_heartbeat_at() == match now.spec_checked_add(heartbeat_period) {
                Some(t) => t,
                None => now,
            },
    {
        let depth = match depth {
            Some(d) => Some(if d >= 1 {
                d
            } else {
                1
            }),
            None => None,
        };
        let next_heartbeat_at = match now.checked_add(heartbeat_period) {
            Some(t) => t,
            None => now,
        };
        Writer {
            my_guid: guid,
            depth,
            first_sn: 1,
            last_sn: 0,
            history: Vec::new(),
            readers: Vec::new(),
            heartbeat_counter: 0,
            heartbeat_period,
            next_heartbeat_at,
        }
    }

    /// The least sequence number that the writer still has.
    pub fn get_first_sn(&self) -> (sn: SequenceNumber)
        ensures
            sn.value == self.first_sn(),
    {
        SequenceNumber { value: self.first_sn }
    }

    /// The sequence number that the writer produced last.
    pub fn get_last_sn(&self) -> (sn: SequenceNumber)
        ensures
            sn.value == self.last_sn(),
    {
        SequenceNumber { value: self.last_sn }
    }

    /// The change with the number `sn`, where the writer still has it.
    pub fn change(&self, sn: SequenceNumber) -> (c: Option<&CacheChange>)
        requires
            self.wf(),
        ensures
            match c {
                Some(change) => self.first_sn() <= sn.value <= self.last_sn() && *change
                    == self.history()[sn.value - self.first_sn()] && change.sequence_number == sn,
                None => !(self.first_sn() <= sn.value <= self.last_sn()),
            },
    {
        if sn.value < self.first_sn || sn.value > self.last_sn {
            None
        } else {
            let length = self.history.len();
            assert(sn.value - self.first_sn < length);
            let offset: usize = (sn.value - self.first_sn) as usize;
            Some(&self.history[offset])
        }
    }

    /// Number of matched readers.
    pub fn reader_count(&self) -> (n: usize)
        ensures
            n == self.readers().len(),
    {
        self.readers.len()
    }

    /// The proxy of the matched reader at position `i`.
    pub fn reader_at(&self, i: usize) -> (p: &RtpsReaderProxy)
        requires
            i < self.readers().len(),
        ensures
            *p == self.readers()[i as int],
    {
        &self.readers[i]
    }

    /// Position of the proxy of the reader `guid`, if it is matched.
    pub fn find_reader(&self, guid: GUID) -> (r: Option<usize>)
        requires
            self.wf(),
        ensures
            match r {
                Some(i) => i < self.readers().len() && self.readers()[i as int].remote_reader_guid
                    == guid && self.has_reader(guid) && self.reader_index(guid) == i,
                None => !self.has_reader(guid),
            },
    {
        let mut i: usize = 0;
        while i < self.readers.len()
            invariant
                self.wf(),
                i <= self.readers.len(),
                forall|k: int| 0 <= k < i ==> (#[trigger] self.readers@[k]).remote_reader_guid != guid,
            decreases self.readers.len() - i,
        {
            if self.readers[i].remote_reader_guid == guid {
                proof {
                    let c = self.reader_index(guid);
                    assert(self.readers@[c].remote_reader_guid == guid);
                }
                return Some(i);
            }
            i += 1;
        }
        None
    }

    /// Takes a reader as matched. The proxy replaces the one that the
    /// writer had of the reader. What the proxy tells as acknowledged is
    /// cut to what the writer has produced.
    pub fn matched_reader_add(&mut self, proxy: RtpsReaderProxy)
        requires
            old(self).wf(),
        ensures
            final(self).wf(),
            final(self).guid() == old(self).guid(),
            final(self).first_sn() == old(self).first_sn(),
            final(self).last_sn() == old(self).last_sn(),
            final(self).history() == old(self).history(),
            final(self).heartbeat_counter() == old(self).heartbeat_counter(),
            final(self).next_heartbeat_at() == old(self).next_heartbeat_at(),
            final(self).has_reader(proxy.remote_reader_guid),
            final(self).readers()[final(self).reader_index(proxy.remote_reader_guid)]
                == (RtpsReaderProxy {
                highest_acked: if proxy.highest_acked < 0 {
                    0i64
                } else if proxy.highest_acked > old(self).last_sn() {
                    old(self).last_sn() as i64
                } else {
                    proxy.highest_acked
                },
                ..proxy
            }),
            forall|g: GUID|
                g != proxy.remote_reader_guid ==> final(self).has_reader(g) == old(self).has_reader(g) && (old(self).has_reader(g) ==> final(self).readers()[final(self).reader_index(g)] == old(self).readers()[old(self).reader_index(g)]),
    {
        let guid = proxy.remote_reader_guid;
        let mut proxy = proxy;
        if proxy.highest_acked < 0 {
            proxy.highest_acked = 0;
        } else if proxy.highest_acked > self.last_sn {
            proxy.highest_acked = self.last_sn;
        }
        let ghost before = self.readers@;
        match self.find_reader(guid) {
            Some(i) => {
                self.readers[i] = proxy;
                proof {
                    let now = self.readers@;
                    assert forall|a: int| 0 <= a < now.len() && a != i implies #[trigger] now[a]
                        == before[a] by {}
                    assert forall|a: int, b: int|
                        0 <= a < now.len() && 0 <= b < now.len() && a != b implies (
                    #[trigger] now[a]).remote_reader_guid != (#[trigger] now[b]).remote_reader_guid by {
                        assert(before[a].remote_reader_guid != before[b].remote_reader_guid);
                        if a != i {
                            assert(now[a] == before[a]);
                        }
                        if b != i {
                            assert(now[b] == before[b]);
                        }
                    }
                    assert forall|a: int| 0 <= a < now.len() implies 0 <= (
                    #[trigger] now[a]).highest_acked <= self.last_sn() by {
                        if a != i {
                            assert(now[a] == before[a]);
                        }
                    }
                    self.lemma_reader_index(i as int);
                    assert forall|g: GUID| g != guid implies self.has_reader(g) == old(self).has_reader(g) && (old(self).has_reader(g) ==> self.readers()[self.reader_index(
                        g,
                    )] == old(self).readers()[old(self).reader_index(g)]) by {
                        if old(self).has_reader(g) {
                            let a = old(self).reader_index(g);
                            assert(before[a].remote_reader_guid == g);
                            assert(now[a] == before[a]);
                            self.lemma_reader_index(a);
                        }
                        if self.has_reader(g) {
                            let a = self.reader_index(g);
                            assert(now[a].remote_reader_guid == g);
                            assert(now[a] == before[a]);
                        }
                    }
                }
            },
            None => {
                self.readers.push(proxy);
                proof {
                    let now = self.readers@;
                    let last = before.len() as int;
                    assert forall|a: int| 0 <= a < before.len() implies #[trigger] now[a]
                        == before[a] by {}
                    assert forall|a: int, b: int|
                        0 <= a < now.len() && 0 <= b < now.len() && a != b implies (
                    #[trigger] now[a]).remote_reader_guid != (#[trigger] now[b]).remote_reader_guid by {
                        if a < last {
                            assert(now[a] == before[a]);
                        }
                        if b < last {
                            assert(now[b] == before[b]);
                        }
                    }
                    assert forall|a: int| 0 <= a < now.len() implies 0 <= (
                    #[trigger] now[a]).highest_acked <= self.last_sn() by {
                        if a < last {
                            assert(now[a] == before[a]);
                        }
                    }
                    self.lemma_reader_index(last);
                    assert forall|g: GUID| g != guid implies self.has_reader(g) == old(self).has_reader(g) && (old(self).has_reader(g) ==> self.readers()[self.reader_index(
                        g,
                    )] == old(self).readers()[old(self).reader_index(g)]) by {
                        if old(self).has_reader(g) {
                            let a = old(self).reader_index(g);
                            assert(before[a].remote_reader_guid == g);
                            assert(now[a] == before[a]);
                            self.lemma_reader_index(a);
                        }
                        if self.has_reader(g) {
                            let a = self.reader_index(g);
                            assert(now[a].remote_reader_guid == g);
                            assert(now[a] == before[a]);
                        }
                    }
                }
            },
        }
    }

    /// In a well-formed writer a reader has one proxy.
    pub proof fn lemma_reader_index(&self, i: int)
        requires
            self.wf(),
            0 <= i < self.readers().len(),
        ensures
            self.has_reader(self.readers()[i].remote_reader_guid),
            self.reader_index(self.readers()[i].remote_reader_guid) == i,
    {
        let g = self.readers()[i].remote_reader_guid;
        let c = self.reader_index(g);
        assert(self.readers()[c].remote_reader_guid == g);
    }

    /// Forgets the readers of the participant `guid_prefix`, which is
    /// lost. What is written is then no longer owed to them.
    pub fn participant_lost(&mut self, guid_prefix: GuidPrefix)
        requires
            old(self).wf(),
        ensures
            final(self).wf(),
            final(self).guid() == old(self).guid(),
            final(self).depth() == old(self).depth(),
            final(self).first_sn() == old(self).first_sn(),
            final(self).last_sn() == old(self).last_sn(),
            final(self).history() == old(self).history(),
            final(self).heartbeat_counter() == old(self).heartbeat_counter(),
            final(self).heartbeat_period() == old(self).heartbeat_period(),
            final(self).next_heartbeat_at() == old(self).next_heartbeat_at(),
            final(self).readers() == spec_kept_readers(
                old(self).readers(),
                guid_prefix,
                old(self).readers().len() as int,
            ),
            forall|g: GUID| #[trigger]
                final(self).has_reader(g) <==> old(self).has_reader(g) && g.guid_prefix
                    != guid_prefix,
    {
        let mut before: Vec<RtpsReaderProxy> = Vec::new();
        core::mem::swap(&mut self.readers, &mut before);
        let ghost all = before@;
        for proxy in it: before
            invariant
                it.seq() == all,
                all == old(self).readers(),
                self.my_guid == old(self).my_guid,
                self.depth == old(self).depth,
                self.first_sn == old(self).first_sn,
                self.last_sn == old(self).last_sn,
                self.history == old(self).history,
                self.heartbeat_counter == old(self).heartbeat_counter,
                self.heartbeat_period == old(self).heartbeat_period,
                self.next_heartbeat_at == old(self).next_heartbeat_at,
                self.readers@ == spec_kept_readers(all, guid_prefix, it.index() as int),
        {
            if proxy.remote_reader_guid.guid_prefix != guid_prefix {
                self.readers.push(proxy);
            }
        }
        proof {
            let n = all.len() as int;
            lemma_kept_readers(all, guid_prefix, n);
            lemma_kept_readers_distinct(all, guid_prefix, n);
            let kept = spec_kept_readers(all, guid_prefix, n);
            assert(self.readers() == kept);
            assert forall|i: int| 0 <= i < kept.len() implies 0 <= (#[trigger] kept[i]).highest_acked
                <= self.last_sn() by {
                let b = choose|b: int|
                    0 <= b < n && #[trigger] all[b] == kept[i]
                        && all[b].remote_reader_guid.guid_prefix != guid_prefix;
                assert(0 <= all[b].highest_acked <= old(self).last_sn());
            }
            assert forall|g: GUID| #[trigger]
                self.has_reader(g) <==> old(self).has_reader(g) && g.guid_prefix != guid_prefix by {
                if self.has_reader(g) {
                    let a = self.reader_index(g);
                    assert(kept[a].remote_reader_guid == g);
                    let b = choose|b: int|
                        0 <= b < n && #[trigger] all[b] == kept[a]
                            && all[b].remote_reader_guid.guid_prefix != guid_prefix;
                    assert(old(self).readers()[b].remote_reader_guid == g);
                    assert(old(self).has_reader(g));
                }
                if old(self).has_reader(g) && g.guid_prefix != guid_prefix {
                    let b = old(self).reader_index(g);
                    assert(all[b].remote_reader_guid == g);
                    let a = choose|a: int| 0 <= a < kept.len() && #[trigger] kept[a] == all[b];
                    assert(self.readers()[a].remote_reader_guid == g);
                    assert(self.has_reader(g));
                }
            }
        }
    }

    /// Forgets the reader `guid`.
    pub fn matched_reader_remove(&mut self, guid: GUID)
        requires
            old(self).wf(),
        ensures
            final(self).wf(),
            final(self).guid() == old(self).guid(),
            final(self).first_sn() == old(self).first_sn(),
            final(self).last_sn() == old(self).last_sn(),
            final(self).history() == old(self).history(),
            final(self).heartbeat_counter() == old(self).heartbeat_counter(),
            final(self).next_heartbeat_at() == old(self).next_heartbeat_at(),
            !final(self).has_reader(guid),
            forall|g: GUID|
                g != guid ==> final(self).has_reader(g) == old(self).has_reader(g) && (old(self).has_reader(g) ==> final(self).readers()[final(self).reader_index(g)] == old(self).readers()[old(self).reader_index(g)]),
    {
        match self.find_reader(guid) {
            None => {},
            Some(i) => {
                let ghost before = self.readers@;
                let _gone = self.readers.remove(i);
                proof {
                    let now = self.readers@;
                    assert forall|a: int| 0 <= a < now.len() implies #[trigger] now[a] == before[if a
                        < i {
                        a
                    } else {
                        a + 1
                    }] by {}
                    assert forall|a: int, b: int|
                        0 <= a < now.len() && 0 <= b < now.len() && a != b implies (
                    #[trigger] now[a]).remote_reader_guid != (#[trigger] now[b]).remote_reader_guid by {
                        let a0 = if a < i {
                            a
                        } else {
                            a + 1
                        };
                        let b0 = if b < i {
                            b
                        } else {
                            b + 1
                        };
                        assert(now[a] == before[a0]);
                        assert(now[b] == before[b0]);
                    }
                    assert forall|a: int| 0 <= a < now.len() implies 0 <= (
                    #[trigger] now[a]).highest_acked <= self.last_sn() by {
                        let a0 = if a < i {
                            a
                        } else {
                            a + 1
                        };
                        assert(now[a] == before[a0]);
                    }
                    if self.has_reader(guid) {
                        let a = self.reader_index(guid);
                        let a0 = if a < i {
                            a
                        } else {
                            a + 1
                        };
                        assert(now[a] == before[a0]);
                        assert(before[a0].remote_reader_guid == before[i as int].remote_reader_guid);
                    }
                    assert forall|g: GUID| g != guid implies self.has_reader(g) == old(self).has_reader(g) && (old(self).has_reader(g) ==> self.readers()[self.reader_index(
                        g,
                    )] == old(self).readers()[old(self).reader_index(g)]) by {
                        if old(self).has_reader(g) {
                            let a = old(self).reader_index(g);
                            assert(before[a].remote_reader_guid == g);
                            let a1 = if a < i {
                                a
                            } else {
                                a - 1
                            };
                            assert(now[a1] == before[a]);
                            self.lemma_reader_index(a1);
                        }
                        if self.has_reader(g) {
                            let a = self.reader_index(g);
                            assert(now[a].remote_reader_guid == g);
                            let a0 = if a < i {
                                a
                            } else {
                                a + 1
                            };
                            assert(now[a] == before[a0]);
                        }
                    }
                }
            },
        }
    }

    /// What `write` does to a writer: `after` is the writer `before` with the
    /// change appended under the next sequence number `r`, or unchanged
    /// where the numbers are used up.
    pub open spec fn spec_written(
        before: Writer,
        after: Writer,
        data: DDSData,
        source_timestamp: Option<Timestamp>,
        r: Result<SequenceNumber>,
    ) -> bool {
        &&& after.guid() == before.guid()
        &&& after.depth() == before.depth()
        &&& after.readers() == before.readers()
        &&& after.heartbeat_counter() == before.heartbeat_counter()
        &&& after.next_heartbeat_at() == before.next_heartbeat_at()
        &&& match r {
            Ok(sn) => {
                &&& before.last_sn() < i64::MAX
                &&& sn.value == before.last_sn() + 1
                &&& sn.value > before.last_sn()
                &&& after.last_sn() == sn.value
                &&& after.first_sn() == spec_first_after(
                    before.first_sn(),
                    after.last_sn(),
                    before.depth(),
                )
                &&& after.history().len() > 0
                &&& after.history().last() == (CacheChange {
                    writer_guid: before.guid(),
                    sequence_number: sn,
                    source_timestamp,
                    data_value: data,
                })
                &&& forall|x: int|
                    after.first_sn() <= x <= before.last_sn() ==> #[trigger] after.spec_change(x)
                        == before.spec_change(x)
            },
            Err(e) => {
                &&& e == Error::OutOfResources
                &&& before.last_sn() == i64::MAX
                &&& after.last_sn() == before.last_sn()
                &&& after.first_sn() == before.first_sn()
                &&& after.history() == before.history()
            },
        }
    }

    /// Appends a change to the history under the next sequence number, and
    /// gives the number. The oldest changes beyond the depth of the
    /// history leave it. Every reliable reader has the new number to
    /// acknowledge.
    ///
    /// Fails with `OutOfResources` where the sequence numbers are used up.
    pub fn write(&mut self, data: DDSData, source_timestamp: Option<Timestamp>) -> (r: Result<
        SequenceNumber,
    >)
        requires
            old(self).wf(),
        ensures
            final(self).wf(),
            Self::spec_written(*old(self), *final(self), data, source_timestamp, r),
    {
        if self.last_sn == i64::MAX {
            return Err(Error::OutOfResources);
        }
        let sn = SequenceNumber { value: self.last_sn + 1 };
        let ghost before = self.history@;
        self.history.push(CacheChange::new(self.my_guid, sn, source_timestamp, data));
        self.last_sn = sn.value;
        let ghost pushed = self.history@;
        match self.depth {
            Some(d) => {
                while self.history.len() > d
                    invariant
                        d >= 1,
                        self.my_guid == old(self).my_guid,
                        self.depth == old(self).depth,
                        self.readers == old(self).readers,
                        self.heartbeat_counter == old(self).heartbeat_counter,
                        self.next_heartbeat_at == old(self).next_heartbeat_at,
                        self.last_sn == sn.value,
                        old(self).first_sn() <= self.first_sn() <= self.last_sn(),
                        self.history@.len() == self.last_sn() - self.first_sn() + 1,
                        forall|i: int|
                            0 <= i < self.history@.len() ==> #[trigger] self.history@[i]
                                == pushed[i + self.first_sn() - old(self).first_sn()],
                        self.first_sn() == old(self).first_sn() || self.history@.len() >= d,
                    decreases self.history.len(),
                {
                    let ghost cur = self.history@;
                    let _gone = self.history.remove(0);
                    self.first_sn = self.first_sn + 1;
                    proof {
                        assert forall|i: int| 0 <= i < self.history@.len() implies #[trigger]
                            self.history@[i] == pushed[i + self.first_sn() - old(self).first_sn()] by {
                            assert(self.history@[i] == cur[i + 1]);
                        }
                    }
                }
            },
            None => {},
        }
        proof {
            assert forall|i: int| 0 <= i < self.history@.len() implies (
            #[trigger] self.history@[i]).sequence_number.value == self.first_sn() + i
                && self.history@[i].writer_guid == self.guid() by {
                let k = i + self.first_sn() - old(self).first_sn();
                assert(self.history@[i] == pushed[k]);
                if k < before.len() {
                    assert(pushed[k] == before[k]);
                }
            }
            assert(self.history@.last() == pushed[pushed.len() - 1]);
            assert forall|x: int|
                self.first_sn() <= x <= old(self).last_sn() implies #[trigger] self.spec_change(x)
                == old(self).spec_change(x) by {
                let i = x - self.first_sn();
                assert(self.history@[i] == pushed[i + self.first_sn() - old(self).first_sn()]);
                assert(pushed[x - old(self).first_sn()] == before[x - old(self).first_sn()]);
            }
        }
        Ok(sn)
    }

    /// Whether the history `after` is the history `before` with a copy of
    /// `change` recorded at `instant`.
    pub open spec fn spec_recorded(
        before: Seq<(Timestamp, CacheChange)>,
        after: Seq<(Timestamp, CacheChange)>,
        instant: Timestamp,
        change: CacheChange,
    ) -> bool {
        exists|copy: CacheChange| #[trigger] copy.spec_same(&change) && after == spec_put(before, instant, copy)
    }

    /// Writes a change as `write` does, and records a copy of it at `now`
    /// in the history of the topic `topic`, so that the readers of this
    /// participant see it. Where the write fails, or the cache has no such
    /// topic, the cache stays as it is.
    pub fn publish(
        &mut self,
        cache: &mut DDSCache,
        topic: &String,
        now: Timestamp,
        data: DDSData,
        source_timestamp: Option<Timestamp>,
    ) -> (r: Result<SequenceNumber>)
        requires
            old(self).wf(),
            old(cache).wf(),
        ensures
            final(self).wf(),
            final(cache).wf(),
            Self::spec_written(*old(self), *final(self), data, source_timestamp, r),
            !(r is Ok && old(cache).has_topic(topic@)) ==> *final(cache) == *old(cache),
            r is Ok && old(cache).has_topic(topic@) ==> final(cache).same_but_changes_of(
                *old(cache),
                topic@,
            ) && Self::spec_recorded(
                old(cache).topic(topic@).changes(),
                final(cache).topic(topic@).changes(),
                now,
                final(self).history().last(),
            ),
    {
        let copy = data.duplicate();
        match self.write(data, source_timestamp) {
            Ok(sn) => {
                let change = CacheChange::new(self.my_guid, sn, source_timestamp, copy);
                assert(change.spec_same(&self.history().last()));
                cache.add_change(topic, now, change);
                Ok(sn)
            },
            Err(e) => Err(e),
        }
    }

    /// Whether every reliable reader has acknowledged all that the writer
    /// has produced.
    pub fn all_acked(&self) -> (b: bool)
        requires
            self.wf(),
        ensures
            b == (forall|i: int|
                0 <= i < self.readers().len() && (#[trigger] self.readers()[i]).is_reliable
                    ==> self.readers()[i].highest_acked >= self.last_sn()),
    {
        let mut i: usize = 0;
        while i < self.readers.len()
            invariant
                i <= self.readers.len(),
                forall|k: int|
                    0 <= k < i && (#[trigger] self.readers@[k]).is_reliable
                        ==> self.readers@[k].highest_acked >= self.last_sn(),
            decreases self.readers.len() - i,
        {
            if self.readers[i].is_reliable && self.readers[i].highest_acked < self.last_sn {
                return false;
            }
            i += 1;
        }
        true
    }

    /// Takes note of an acknowledgement of the reader `source_guid`.
    ///
    /// An acknowledgement whose count is not above that of the last one
    /// accepted from the reader is dropped, and so is one of a reader that
    /// is not matched or not reliable: nothing changes and nothing is sent.
    /// Else all numbers below the base of the set count as acknowledged,
    /// and each number in the set is to be sent again where the writer
    /// still has its change, or reported as gone where it has not.
    pub fn handle_acknack(
        &mut self,
        source_guid: GUID,
        reader_sn_state: &SequenceNumberSet,
        count: i32,
    ) -> (response: AckNackResponse)
        requires
            old(self).wf(),
            reader_sn_state.wf(),
        ensures
            final(self).wf(),
            final(self).guid() == old(self).guid(),
            final(self).depth() == old(self).depth(),
            final(self).first_sn() == old(self).first_sn(),
            final(self).last_sn() == old(self).last_sn(),
            final(self).history() == old(self).history(),
            final(self).heartbeat_counter() == old(self).heartbeat_counter(),
            final(self).next_heartbeat_at() == old(self).next_heartbeat_at(),
            final(self).readers().len() == old(self).readers().len(),
            response.accepted == (old(self).has_reader(source_guid) && old(self).readers()[old(self).reader_index(source_guid)].is_reliable && spec_acknack_is_new(
                old(self).readers()[old(self).reader_index(source_guid)].last_acknack_count,
                count,
            )),
            !response.accepted ==> final(self).readers() == old(self).readers()
                && response.retransmit@.len() == 0 && response.gaps@.len() == 0,
            response.accepted ==> {
                let i = old(self).reader_index(source_guid);
                &&& final(self).readers()[i] == (RtpsReaderProxy {
                    last_acknack_count: Some(count),
                    highest_acked: spec_acked_after(
                        old(self).readers()[i].highest_acked as int,
                        reader_sn_state.base.value as int,
                        old(self).last_sn(),
                    ) as i64,
                    ..old(self).readers()[i]
                })
                &&& forall|k: int|
                    0 <= k < old(self).readers().len() && k != i ==> #[trigger] final(self).readers()[k] == old(self).readers()[k]
                &&& spec_increasing(response.retransmit@)
                &&& spec_increasing(response.gaps@)
                &&& forall|x: int| #[trigger]
                    spec_listed(response.retransmit@, x) <==> reader_sn_state.spec_contains(x)
                        && old(self).first_sn() <= x <= old(self).last_sn()
                &&& forall|x: int| #[trigger]
                    spec_listed(response.gaps@, x) <==> reader_sn_state.spec_contains(x) && 1 <= x
                        < old(self).first_sn()
            },
    {
        let mut retransmit: Vec<i64> = Vec::new();
        let mut gaps: Vec<i64> = Vec::new();
        let i = match self.find_reader(source_guid) {
            Some(i) => i,
            None => {
                return AckNackResponse { accepted: false, retransmit, gaps };
            },
        };
        if !self.readers[i].is_reliable {
            return AckNackResponse { accepted: false, retransmit, gaps };
        }
        match self.readers[i].last_acknack_count {
            Some(c) => {
                if count <= c {
                    return AckNackResponse { accepted: false, retransmit, gaps };
                }
            },
            None => {},
        }
        let ghost before = self.readers@;
        let base = reader_sn_state.base.value;
        let told: i64 = if base == i64::MIN {
            i64::MIN
        } else if base - 1 > self.last_sn {
            self.last_sn
        } else {
            base - 1
        };
        self.readers[i].last_acknack_count = Some(count);
        if told > self.readers[i].highest_acked {
            self.readers[i].highest_acked = told;
        }
        proof {
            let now = self.readers@;
            assert forall|a: int| 0 <= a < now.len() && a != i implies #[trigger] now[a]
                == before[a] by {}
            assert forall|a: int, b: int|
                0 <= a < now.len() && 0 <= b < now.len() && a != b implies (
            #[trigger] now[a]).remote_reader_guid != (#[trigger] now[b]).remote_reader_guid by {
                assert(before[a].remote_reader_guid != before[b].remote_reader_guid);
                if a != i {
                    assert(now[a] == before[a]);
                }
                if b != i {
                    assert(now[b] == before[b]);
                }
            }
            assert forall|a: int| 0 <= a < now.len() implies 0 <= (#[trigger] now[a]).highest_acked
                <= self.last_sn() by {
                if a != i {
                    assert(now[a] == before[a]);
                }
            }
        }
        let mut k: usize = 0;
        while k < reader_sn_state.bits.len()
            invariant
                k <= reader_sn_state.bits.len(),
                reader_sn_state.wf(),
                base == reader_sn_state.base.value,
                spec_increasing(retransmit@),
                spec_increasing(gaps@),
                forall|a: int| 0 <= a < retransmit@.len() ==> (#[trigger] retransmit@[a]) < base + k,
                forall|a: int| 0 <= a < gaps@.len() ==> (#[trigger] gaps@[a]) < base + k,
                forall|x: int| #[trigger]
                    spec_listed(retransmit@, x) <==> reader_sn_state.spec_contains(x)
                        && self.first_sn() <= x <= self.last_sn() && x < base + k,
                forall|x: int| #[trigger]
                    spec_listed(gaps@, x) <==> reader_sn_state.spec_contains(x) && 1 <= x
                        < self.first_sn() && x < base + k,
            decreases reader_sn_state.bits.len() - k,
        {
            let ghost old_retransmit = retransmit@;
            let ghost old_gaps = gaps@;
            if reader_sn_state.bits[k] {
                let sn: i64 = base + k as i64;
                if sn >= self.first_sn && sn <= self.last_sn {
                    retransmit.push(sn);
                    proof {
                        lemma_push_listed(old_retransmit, sn);
                    }
                } else if sn >= 1 && sn < self.first_sn {
                    gaps.push(sn);
                    proof {
                        lemma_push_listed(old_gaps, sn);
                    }
                }
            }
            proof {
                assert forall|x: int| #[trigger]
                    spec_listed(retransmit@, x) <==> reader_sn_state.spec_contains(x)
                        && self.first_sn() <= x <= self.last_sn() && x < base + k + 1 by {
                    assert(spec_listed(old_retransmit, x) <==> reader_sn_state.spec_contains(x)
                        && self.first_sn() <= x <= self.last_sn() && x < base + k);
                    if x == base + k {
                        assert(reader_sn_state.spec_contains(x) == reader_sn_state.bits@[k as int]);
                    }
                }
                assert forall|x: int| #[trigger]
                    spec_listed(gaps@, x) <==> reader_sn_state.spec_contains(x) && 1 <= x
                        < self.first_sn() && x < base + k + 1 by {
                    assert(spec_listed(old_gaps, x) <==> reader_sn_state.spec_contains(x) && 1 <= x
                        < self.first_sn() && x < base + k);
                    if x == base + k {
                        assert(reader_sn_state.spec_contains(x) == reader_sn_state.bits@[k as int]);
                    }
                }
            }
            k += 1;
        }
        AckNackResponse { accepted: true, retransmit, gaps }
    }

    /// The heartbeats that are due at `now`: none before the time of the
    /// next round; else one for each reliable reader, which tells the
    /// numbers that the writer has, each with the next count. The round
    /// after it is due one period later.
    pub fn handle_heartbeat_timer(&mut self, now: Timestamp) -> (heartbeats: Vec<(GUID, Heartbeat)>)
        requires
            old(self).wf(),
        ensures
            final(self).wf(),
            final(self).guid() == old(self).guid(),
            final(self).depth() == old(self).depth(),
            final(self).first_sn() == old(self).first_sn(),
            final(self).last_sn() == old(self).last_sn(),
            final(self).history() == old(self).history(),
            final(self).readers() == old(self).readers(),
            final(self).heartbeat_period() == old(self).heartbeat_period(),
            now.ticks() < old(self).next_heartbeat_at().ticks() ==> heartbeats@.len() == 0
                && final(self).heartbeat_counter() == old(self).heartbeat_counter()
                && final(self).next_heartbeat_at() == old(self).next_heartbeat_at(),
            now.ticks() >= old(self).next_heartbeat_at().ticks() ==> {
                &&& heartbeats@ == spec_heartbeats_due(
                    old(self).readers(),
                    old(self).readers().len() as int,
                    old(self).guid(),
                    old(self).first_sn(),
                    old(self).last_sn(),
                    old(self).heartbeat_counter(),
                )
                &&& final(self).heartbeat_counter() == spec_count_after(
                    old(self).heartbeat_counter(),
                    heartbeats@.len() as int,
                )
                &&& final(self).next_heartbeat_at() == match now.spec_checked_add(
                    old(self).heartbeat_period(),
                ) {
                    Some(t) => t,
                    None => old(self).next_heartbeat_at(),
                }
            },
    {
        let mut heartbeats: Vec<(GUID, Heartbeat)> = Vec::new();
        if now.lt(&self.next_heartbeat_at) {
            return heartbeats;
        }
        let mut i: usize = 0;
        while i < self.readers.len()
            invariant
                self.wf(),
                i <= self.readers.len(),
                self.my_guid == old(self).my_guid,
                self.depth == old(self).depth,
                self.first_sn == old(self).first_sn,
                self.last_sn == old(self).last_sn,
                self.history == old(self).history,
                self.readers == old(self).readers,
                self.heartbeat_period == old(self).heartbeat_period,
                self.next_heartbeat_at == old(self).next_heartbeat_at,
                heartbeats@ == spec_heartbeats_due(
                    self.readers@,
                    i as int,
                    self.my_guid,
                    self.first_sn(),
                    self.last_sn(),
                    old(self).heartbeat_counter(),
                ),
                self.heartbeat_counter() == spec_count_after(
                    old(self).heartbeat_counter(),
                    heartbeats@.len() as int,
                ),
            decreases self.readers.len() - i,
        {
            if self.readers[i].is_reliable {
                if self.heartbeat_counter < i32::MAX {
                    self.heartbeat_counter = self.heartbeat_counter + 1;
                }
                let guid = self.readers[i].remote_reader_guid;
                heartbeats.push(
                    (
                        guid,
                        Heartbeat {
                            reader_id: guid.entity_id,
                            writer_id: self.my_guid.entity_id,
                            first_sn: SequenceNumber { value: self.first_sn },
                            last_sn: SequenceNumber { value: self.last_sn },
                            count: self.heartbeat_counter,
                        },
                    ),
                );
            }
            i += 1;
        }
        match now.checked_add(self.heartbeat_period) {
            Some(t) => {
                self.next_heartbeat_at = t;
            },
            None => {},
        }
        heartbeats
    }
}

/// A number above all increasing numbers, put at their end, keeps them
/// increasing and is listed besides them.
pub proof fn lemma_push_listed(s: Seq<i64>, sn: i64)
    requires
        spec_increasing(s),
        forall|a: int| 0 <= a < s.len() ==> (#[trigger] s[a]) < sn,
    ensures
        spec_increasing(s.push(sn)),
        forall|x: int| #[trigger] spec_listed(s.push(sn), x) <==> spec_listed(s, x) || x == sn,
{
    let r = s.push(sn);
    assert forall|x: int| #[trigger] spec_listed(r, x) <==> spec_listed(s, x) || x == sn by {
        if spec_listed(s, x) {
            let i = choose|i: int| 0 <= i < s.len() && #[trigger] s[i] == x;
            assert(r[i] == x);
        }
        if x == sn {
            assert(r[s.len() as int] == x);
        }
        if spec_listed(r, x) {
            let i = choose|i: int| 0 <= i < r.len() && #[trigger] r[i] == x;
            if i < s.len() {
                assert(s[i] == x);
            }
        }
    }
}

/// An acknowledgement with a count that is not above the count of an
/// acknowledgement that was accepted before it is not new: of two
/// acknowledgements with the same count at most the first is acted on.
pub proof fn law_duplicate_acknack_is_dropped(last: Option<i32>, first: i32, second: i32)
    requires
        spec_acknack_is_new(last, first),
        second <= first,
    ensures
        !spec_acknack_is_new(Some(first), second),
{
}

} // verus!

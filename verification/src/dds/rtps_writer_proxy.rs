use crate::structure::guid::GUID;
use crate::structure::locator::LocatorList;
use crate::structure::sequence_number::SequenceNumber;
use crate::structure::sequence_number::SequenceNumberSet;
use crate::structure::sequence_number::SEQUENCE_NUMBER_SET_MAX;
use vstd::prelude::*;

verus! {

/// Whether the numbers stand in strictly increasing order.
pub open spec fn spec_increasing(s: Seq<i64>) -> bool {
    forall|i: int, j: int| 0 <= i < j < s.len() ==> (#[trigger] s[i]) < (#[trigger] s[j])
}

/// Whether the number `x` is among the numbers `s`.
pub open spec fn spec_listed(s: Seq<i64>, x: int) -> bool {
    exists|i: int| 0 <= i < s.len() && #[trigger] s[i] == x
}

/// A number put at its place among increasing numbers keeps them
/// increasing, and is listed besides them.
pub proof fn lemma_insert_listed(s: Seq<i64>, place: int, sn: i64)
    requires
        spec_increasing(s),
        0 <= place <= s.len(),
        forall|k: int| 0 <= k < place ==> (#[trigger] s[k]) < sn,
        forall|k: int| place <= k < s.len() ==> (#[trigger] s[k]) > sn,
    ensures
        spec_increasing(s.insert(place, sn)),
        forall|x: int| #[trigger]
            spec_listed(s.insert(place, sn), x) <==> spec_listed(s, x) || x == sn,
{
    let r = s.insert(place, sn);
    assert forall|i: int, j: int| 0 <= i < j < r.len() implies (#[trigger] r[i]) < (
    #[trigger] r[j]) by {
        if i < place {
            assert(r[i] == s[i]);
        } else if i > place {
            assert(r[i] == s[i - 1]);
        }
        if j < place {
            assert(r[j] == s[j]);
        } else if j > place {
            assert(r[j] == s[j - 1]);
        }
    }
    assert forall|x: int| #[trigger] spec_listed(r, x) <==> spec_listed(s, x) || x == sn by {
        if spec_listed(s, x) {
            let i = choose|i: int| 0 <= i < s.len() && #[trigger] s[i] == x;
            if i < place {
                assert(r[i] == x);
            } else {
                assert(r[i + 1] == x);
            }
        }
        if x == sn {
            assert(r[place] == x);
        }
        if spec_listed(r, x) {
            let i = choose|i: int| 0 <= i < r.len() && #[trigger] r[i] == x;
            if i < place {
                assert(s[i] == x);
            } else if i > place {
                assert(s[i - 1] == x);
            }
        }
    }
}

/// Increasing numbers without the first stay increasing, lie above the
/// first, and list what was listed but the first.
pub proof fn lemma_remove_first_listed(s: Seq<i64>)
    requires
        spec_increasing(s),
        s.len() > 0,
    ensures
        spec_increasing(s.remove(0)),
        forall|i: int| 0 <= i < s.remove(0).len() ==> (#[trigger] s.remove(0)[i]) > s[0],
        forall|x: int| #[trigger] spec_listed(s.remove(0), x) <==> spec_listed(s, x) && x != s[0],
{
    let r = s.remove(0);
    assert forall|i: int| 0 <= i < r.len() implies #[trigger] r[i] == s[i + 1] by {}
    assert forall|i: int, j: int| 0 <= i < j < r.len() implies (#[trigger] r[i]) < (
    #[trigger] r[j]) by {
        assert(r[i] == s[i + 1]);
        assert(r[j] == s[j + 1]);
    }
    assert forall|i: int| 0 <= i < r.len() implies (#[trigger] r[i]) > s[0] by {
        assert(r[i] == s[i + 1]);
    }
    assert forall|x: int| #[trigger] spec_listed(r, x) <==> spec_listed(s, x) && x != s[0] by {
        if spec_listed(s, x) && x != s[0] {
            let i = choose|i: int| 0 <= i < s.len() && #[trigger] s[i] == x;
            assert(r[i - 1] == x);
        }
        if spec_listed(r, x) {
            let i = choose|i: int| 0 <= i < r.len() && #[trigger] r[i] == x;
            assert(s[i + 1] == x);
            assert(s[0] < s[i + 1]);
        }
    }
}

/// What a reader decides on a heartbeat.
#[derive(Clone, Copy, Debug, PartialEq, Eq, Structural)]
pub struct HeartbeatResponse {
    /// Whether the heartbeat was new; a repeated one changes nothing.
    pub accepted: bool,
    /// Whether an acknowledgement is to be sent at once.
    pub acknack_needed: bool,
}

/// What a reliable reader records of one matched writer.
///
/// A sequence number is settled where its change was received, or where
/// the writer told that it will not send it. The numbers from 1 up to
/// `highest_continuous_sn` are all settled, the next one is not; the
/// numbers settled beyond it are listed. A number is missing where it is
/// not settled and not above the highest number known of the writer.
#[derive(Debug, Clone)]
pub struct RtpsWriterProxy {
    remote_writer_guid: GUID,
    unicast_locator_list: LocatorList,
    multicast_locator_list: LocatorList,
    highest_continuous_sn: i64,
    settled_beyond: Vec<i64>,
    highest_received_sn: i64,
    last_heartbeat_count: Option<i32>,
    acknack_count: i32,
}

impl RtpsWriterProxy {
    /// The writer that the proxy stands for.
    pub closed spec fn guid(&self) -> GUID {
        self.remote_writer_guid
    }

    /// The unicast locators of the writer.
    pub closed spec fn unicast_locators(&self) -> LocatorList {
        self.unicast_locator_list
    }

    /// The multicast locators of the writer.
    pub closed spec fn multicast_locators(&self) -> LocatorList {
        self.multicast_locator_list
    }

    /// The writer that the proxy stands for.
    pub fn remote_writer_guid(&self) -> (g: GUID)
        ensures
            g == self.guid(),
    {
        self.remote_writer_guid
    }

    /// The unicast locators of the writer.
    pub fn unicast_locator_list(&self) -> (l: &LocatorList)
        ensures
            *l == self.unicast_locators(),
    {
        &self.unicast_locator_list
    }

    /// The multicast locators of the writer.
    pub fn multicast_locator_list(&self) -> (l: &LocatorList)
        ensures
            *l == self.multicast_locators(),
    {
        &self.multicast_locator_list
    }

    /// The largest number up to which all numbers are settled.
    pub closed spec fn highest_continuous_sn(&self) -> int {
        self.highest_continuous_sn as int
    }

    /// The largest number known of the writer: received from it, or told
    /// by it as available.
    pub closed spec fn highest_received_sn(&self) -> int {
        self.highest_received_sn as int
    }

    /// The settled numbers above the continuous range, in order.
    pub closed spec fn settled_beyond(&self) -> Seq<i64> {
        self.settled_beyond@
    }

    /// The count of the last heartbeat accepted.
    pub closed spec fn last_heartbeat_count(&self) -> Option<i32> {
        self.last_heartbeat_count
    }

    /// The count of the last acknowledgement made.
    pub closed spec fn acknack_count(&self) -> int {
        self.acknack_count as int
    }

    /// Whether the number `sn` is settled.
    pub open spec fn is_settled(&self, sn: int) -> bool {
        1 <= sn <= self.highest_continuous_sn() || spec_listed(self.settled_beyond(), sn)
    }

    /// Whether the number `sn` is missing: known of the writer, and not
    /// settled.
    pub open spec fn is_missing(&self, sn: int) -> bool {
        1 <= sn <= self.highest_received_sn() && !self.is_settled(sn)
    }

    /// The invariant of the proxy.
    pub open spec fn wf(&self) -> bool {
        &&& 0 <= self.highest_continuous_sn() <= self.highest_received_sn()
        &&& spec_increasing(self.settled_beyond())
        &&& forall|i: int|
            0 <= i < self.settled_beyond().len() ==> self.highest_continuous_sn() + 1 < (
            #[trigger] self.settled_beyond()[i]) <= self.highest_received_sn()
    }

    /// The proxy of the writer `remote_writer_guid` of which nothing is
    /// known yet.
    pub fn new(
        remote_writer_guid: GUID,
        unicast_locator_list: LocatorList,
        multicast_locator_list: LocatorList,
    ) -> (p: RtpsWriterProxy)
        ensures
            p.wf(),
            p.guid() == remote_writer_guid,
            p.unicast_locators() == unicast_locator_list,
            p.multicast_locators() == multicast_locator_list,
            p.highest_continuous_sn() == 0,
            p.highest_received_sn() == 0,
            p.last_heartbeat_count() is None,
            p.acknack_count() == 0,
            forall|sn: int| !p.is_settled(sn),
    {
        RtpsWriterProxy {
            remote_writer_guid,
            unicast_locator_list,
            multicast_locator_list,
            highest_continuous_sn: 0,
            settled_beyond: Vec::new(),
            highest_received_sn: 0,
            last_heartbeat_count: None,
            acknack_count: 0,
        }
    }

    /// The largest number up to which all numbers are settled.
    pub fn get_highest_continuous_sn(&self) -> (sn: SequenceNumber)
        ensures
            sn.value == self.highest_continuous_sn(),
    {
        SequenceNumber { value: self.highest_continuous_sn }
    }

    /// The largest number known of the writer.
    pub fn get_highest_received_sn(&self) -> (sn: SequenceNumber)
        ensures
            sn.value == self.highest_received_sn(),
    {
        SequenceNumber { value: self.highest_received_sn }
    }

    /// Whether any number is missing.
    pub fn has_missing(&self) -> (b: bool)
        requires
            self.wf(),
        ensures
            b == (self.highest_continuous_sn() < self.highest_received_sn()),
            b == self.is_missing(self.highest_continuous_sn() + 1),
            !b ==> forall|sn: int| !self.is_missing(sn),
    {
        self.highest_continuous_sn < self.highest_received_sn
    }

    /// Place of `sn` among the settled numbers beyond the continuous range:
    /// where it stands, or where it would be put.
    fn search(&self, sn: i64) -> (r: (usize, bool))
        requires
            self.wf(),
        ensures
            r.0 <= self.settled_beyond().len(),
            forall|k: int| 0 <= k < r.0 ==> (#[trigger] self.settled_beyond()[k]) < sn,
            forall|k: int|
                r.0 <= k < self.settled_beyond().len() ==> (#[trigger] self.settled_beyond()[k])
                    >= sn,
            r.1 == (r.0 < self.settled_beyond().len() && self.settled_beyond()[r.0 as int] == sn),
            r.1 == spec_listed(self.settled_beyond(), sn as int),
    {
        let mut i: usize = 0;
        while i < self.settled_beyond.len() && self.settled_beyond[i] < sn
            invariant
                i <= self.settled_beyond.len(),
                spec_increasing(self.settled_beyond@),
                forall|k: int| 0 <= k < i ==> (#[trigger] self.settled_beyond@[k]) < sn,
            decreases self.settled_beyond.len() - i,
        {
            i += 1;
        }
        let found = i < self.settled_beyond.len() && self.settled_beyond[i] == sn;
        proof {
            assert forall|k: int| i <= k < self.settled_beyond@.len() implies (
            #[trigger] self.settled_beyond@[k]) >= sn by {
                if k > i {
                    assert(self.settled_beyond@[i as int] < self.settled_beyond@[k]);
                }
            }
        }
        (i, found)
    }

    /// The invariant of the proxy but for this: a listed number may follow
    /// the continuous range without a gap.
    pub open spec fn wf_loose(&self) -> bool {
        &&& 0 <= self.highest_continuous_sn() <= self.highest_received_sn()
        &&& spec_increasing(self.settled_beyond())
        &&& forall|i: int|
            0 <= i < self.settled_beyond().len() ==> self.highest_continuous_sn() < (
            #[trigger] self.settled_beyond()[i]) <= self.highest_received_sn()
    }

    /// Extends the continuous range over the listed numbers that follow it
    /// without a gap.
    fn absorb(&mut self)
        requires
            old(self).wf_loose(),
        ensures
            final(self).wf(),
            forall|x: int| #![trigger final(self).is_settled(x)] final(self).is_settled(x) <==> old(self).is_settled(x),
            final(self).highest_received_sn() == old(self).highest_received_sn(),
            final(self).last_heartbeat_count() == old(self).last_heartbeat_count(),
            final(self).acknack_count() == old(self).acknack_count(),
            final(self).guid() == old(self).guid(),
            final(self).highest_continuous_sn() >= old(self).highest_continuous_sn(),
    {
        while self.settled_beyond.len() > 0 && self.settled_beyond[0] == self.highest_continuous_sn
            + 1
            invariant
                self.wf_loose(),
                self.highest_received_sn == old(self).highest_received_sn,
                self.last_heartbeat_count == old(self).last_heartbeat_count,
                self.acknack_count == old(self).acknack_count,
                self.guid() == old(self).guid(),
                self.highest_continuous_sn() >= old(self).highest_continuous_sn(),
                forall|x: int| self.is_settled(x) <==> old(self).is_settled(x),
            decreases self.settled_beyond.len(),
        {
            let ghost snapshot = *self;
            proof {
                lemma_remove_first_listed(self.settled_beyond@);
            }
            let next = self.settled_beyond.remove(0);
            self.highest_continuous_sn = next;
            proof {
                assert forall|x: int| self.is_settled(x) <==> snapshot.is_settled(x) by {
                    assert(spec_listed(self.settled_beyond@, x) <==> spec_listed(
                        snapshot.settled_beyond@,
                        x,
                    ) && x != next);
                    if x == next {
                        assert(snapshot.settled_beyond@[0] == x);
                    }
                }
            }
        }
        proof {
            assert forall|i: int| 0 <= i < self.settled_beyond@.len() implies self.highest_continuous_sn()
                + 1 < (#[trigger] self.settled_beyond@[i]) by {
                if i > 0 {
                    assert(self.settled_beyond@[0] < self.settled_beyond@[i]);
                }
            }
        }
    }

    /// Settles the number `sn` and extends the continuous range as far as
    /// the settled numbers reach. Tells whether the number was not settled
    /// before.
    fn settle(&mut self, sn: i64) -> (fresh: bool)
        requires
            old(self).wf(),
            1 <= sn <= old(self).highest_received_sn(),
        ensures
            final(self).wf(),
            fresh == !old(self).is_settled(sn as int),
            forall|x: int| #![trigger final(self).is_settled(x)] final(self).is_settled(x) <==> old(self).is_settled(x) || x == sn,
            final(self).highest_received_sn() == old(self).highest_received_sn(),
            final(self).last_heartbeat_count() == old(self).last_heartbeat_count(),
            final(self).acknack_count() == old(self).acknack_count(),
            final(self).guid() == old(self).guid(),
            final(self).highest_continuous_sn() >= old(self).highest_continuous_sn(),
    {
        if sn <= self.highest_continuous_sn {
            return false;
        }
        let (place, found) = self.search(sn);
        if found {
            return false;
        }
        if sn > self.highest_continuous_sn + 1 {
            proof {
                assert forall|k: int| place <= k < self.settled_beyond@.len() implies (
                #[trigger] self.settled_beyond@[k]) > sn by {
                    if self.settled_beyond@[k] == sn {
                        assert(spec_listed(self.settled_beyond@, sn as int));
                    }
                }
                lemma_insert_listed(self.settled_beyond@, place as int, sn);
            }
            let ghost before = self.settled_beyond@;
            self.settled_beyond.insert(place, sn);
            proof {
                let now = self.settled_beyond@;
                assert forall|i: int| 0 <= i < now.len() implies self.highest_continuous_sn() + 1
                    < (#[trigger] now[i]) <= self.highest_received_sn() by {
                    if i < place {
                        assert(now[i] == before[i]);
                    } else if i > place {
                        assert(now[i] == before[i - 1]);
                    }
                }
                assert forall|x: int| self.is_settled(x) <==> old(self).is_settled(x) || x
                    == sn by {
                    assert(spec_listed(now, x) <==> spec_listed(before, x) || x == sn);
                }
            }
            return true;
        }
        // The number extends the continuous range; so do the settled
        // numbers that follow it without a gap.
        let ghost snapshot = *self;
        self.highest_continuous_sn = sn;
        proof {
            assert forall|x: int| self.is_settled(x) <==> snapshot.is_settled(x) || x == sn by {
                if spec_listed(self.settled_beyond@, x) {
                    let i = choose|i: int|
                        0 <= i < self.settled_beyond@.len() && #[trigger] self.settled_beyond@[i]
                            == x;
                    assert(self.settled_beyond@[i] > snapshot.highest_continuous_sn() + 1);
                }
            }
        }
        self.absorb();
        true
    }

    /// Records that the change with the number `sn` arrived, and tells
    /// whether it is to be delivered: it is, unless the number was
    /// settled already.
    pub fn received_changes_add(&mut self, sn: SequenceNumber) -> (deliver: bool)
        requires
            old(self).wf(),
        ensures
            final(self).wf(),
            deliver == (sn.value >= 1 && !old(self).is_settled(sn.value as int)),
            forall|x: int|
                #![trigger final(self).is_settled(x)]
                final(self).is_settled(x) <==> old(self).is_settled(x) || (x == sn.value && sn.value
                    >= 1),
            final(self).highest_received_sn() == if sn.value > old(self).highest_received_sn() {
                sn.value as int
            } else {
                old(self).highest_received_sn()
            },
            final(self).highest_continuous_sn() >= old(self).highest_continuous_sn(),
            final(self).last_heartbeat_count() == old(self).last_heartbeat_count(),
            final(self).acknack_count() == old(self).acknack_count(),
            final(self).guid() == old(self).guid(),
    {
        if sn.value < 1 {
            return false;
        }
        if sn.value > self.highest_received_sn {
            self.highest_received_sn = sn.value;
        }
        self.settle(sn.value)
    }

    /// Records that the writer will not send the changes whose numbers the
    /// set lists: they count as settled.
    pub fn irrelevant_changes_set(&mut self, gap: &SequenceNumberSet)
        requires
            old(self).wf(),
            gap.wf(),
        ensures
            final(self).wf(),
            forall|x: int|
                #![trigger final(self).is_settled(x)]
                final(self).is_settled(x) <==> old(self).is_settled(x) || (x >= 1
                    && gap.spec_contains(x)),
            final(self).highest_continuous_sn() >= old(self).highest_continuous_sn(),
            final(self).highest_received_sn() >= old(self).highest_received_sn(),
            final(self).last_heartbeat_count() == old(self).last_heartbeat_count(),
            final(self).acknack_count() == old(self).acknack_count(),
            final(self).guid() == old(self).guid(),
    {
        let mut i: usize = 0;
        while i < gap.bits.len()
            invariant
                i <= gap.bits.len(),
                gap.wf(),
                self.wf(),
                forall|x: int|
                    #![trigger self.is_settled(x)]
                    self.is_settled(x) <==> old(self).is_settled(x) || (x >= 1
                        && gap.spec_contains(x) && x < gap.base.value + i),
                self.highest_continuous_sn() >= old(self).highest_continuous_sn(),
                self.highest_received_sn() >= old(self).highest_received_sn(),
                self.last_heartbeat_count() == old(self).last_heartbeat_count(),
                self.acknack_count() == old(self).acknack_count(),
                self.guid() == old(self).guid(),
            decreases gap.bits.len() - i,
        {
            let ghost snapshot = *self;
            if gap.bits[i] {
                assert(gap.base.value + i <= i64::MAX);
                let sn: i64 = gap.base.value + i as i64;
                if sn >= 1 {
                    if sn > self.highest_received_sn {
                        self.highest_received_sn = sn;
                    }
                    let _fresh = self.settle(sn);
                }
            }
            proof {
                assert forall|x: int|
                    #![trigger self.is_settled(x)]
                    self.is_settled(x) <==> old(self).is_settled(x) || (x >= 1
                        && gap.spec_contains(x) && x < gap.base.value + i + 1) by {
                    assert(snapshot.is_settled(x) <==> old(self).is_settled(x) || (x >= 1
                        && gap.spec_contains(x) && x < gap.base.value + i));
                    if x == gap.base.value + i {
                        assert(gap.spec_contains(x) == gap.bits@[i as int]);
                    }
                }
            }
            i += 1;
        }
    }

    /// Takes note of a heartbeat that tells that the writer has the
    /// changes from `first_sn` to `last_sn` available.
    ///
    /// A heartbeat whose count is not above that of the last one accepted
    /// is a repetition and changes nothing. Else the numbers below
    /// `first_sn` count as settled, since the writer has them no more, and
    /// the numbers up to `last_sn` are known of the writer. An
    /// acknowledgement is needed at once unless the heartbeat is final and
    /// nothing is missing.
    pub fn handle_heartbeat(
        &mut self,
        first_sn: SequenceNumber,
        last_sn: SequenceNumber,
        count: i32,
        is_final: bool,
    ) -> (response: HeartbeatResponse)
        requires
            old(self).wf(),
        ensures
            final(self).wf(),
            final(self).guid() == old(self).guid(),
            final(self).acknack_count() == old(self).acknack_count(),
            response.accepted == (old(self).last_heartbeat_count() matches Some(c) ==> count > c),
            !response.accepted ==> !response.acknack_needed && final(self).highest_continuous_sn()
                == old(self).highest_continuous_sn() && final(self).highest_received_sn() == old(self).highest_received_sn() && final(self).settled_beyond() == old(self).settled_beyond()
                && final(self).last_heartbeat_count() == old(self).last_heartbeat_count(),
            response.accepted ==> {
                &&& final(self).last_heartbeat_count() == Some(count)
                &&& forall|x: int|
                    #![trigger final(self).is_settled(x)]
                    final(self).is_settled(x) <==> old(self).is_settled(x) || (1 <= x
                        < first_sn.value)
                &&& final(self).highest_received_sn() == vstd::math::max(
                    vstd::math::max(old(self).highest_received_sn(), last_sn.value as int),
                    first_sn.value - 1,
                )
                &&& response.acknack_needed == (!is_final || final(self).highest_continuous_sn()
                    < final(self).highest_received_sn())
            },
    {
        match self.last_heartbeat_count {
            Some(c) => {
                if count <= c {
                    return HeartbeatResponse { accepted: false, acknack_needed: false };
                }
            },
            None => {},
        }
        self.last_heartbeat_count = Some(count);
        if last_sn.value > self.highest_received_sn {
            self.highest_received_sn = last_sn.value;
        }
        if first_sn.value > i64::MIN && first_sn.value - 1 > self.highest_received_sn {
            self.highest_received_sn = first_sn.value - 1;
        }
        if first_sn.value > i64::MIN && first_sn.value - 1 > self.highest_continuous_sn {
            self.flush_below(first_sn.value);
        }
        let missing = self.highest_continuous_sn < self.highest_received_sn;
        HeartbeatResponse { accepted: true, acknack_needed: !is_final || missing }
    }

    /// Settles all numbers below `first`.
    fn flush_below(&mut self, first: i64)
        requires
            old(self).wf(),
            old(self).highest_continuous_sn() < first - 1 <= old(self).highest_received_sn(),
        ensures
            final(self).wf(),
            forall|x: int|
                #![trigger final(self).is_settled(x)]
                final(self).is_settled(x) <==> old(self).is_settled(x) || (1 <= x < first),
            final(self).highest_received_sn() == old(self).highest_received_sn(),
            final(self).last_heartbeat_count() == old(self).last_heartbeat_count(),
            final(self).acknack_count() == old(self).acknack_count(),
            final(self).guid() == old(self).guid(),
            final(self).highest_continuous_sn() >= first - 1,
    {
        // Drop the listed numbers that the range now covers.
        let ghost before = self.settled_beyond@;
        while self.settled_beyond.len() > 0 && self.settled_beyond[0] < first
            invariant
                self.highest_continuous_sn == old(self).highest_continuous_sn,
                self.highest_received_sn == old(self).highest_received_sn,
                self.last_heartbeat_count == old(self).last_heartbeat_count,
                self.acknack_count == old(self).acknack_count,
                self.guid() == old(self).guid(),
                self.wf(),
                forall|x: int|
                    x >= first ==> (#[trigger] spec_listed(self.settled_beyond@, x) <==> spec_listed(
                        before,
                        x,
                    )),
            decreases self.settled_beyond.len(),
        {
            let ghost cur = self.settled_beyond@;
            proof {
                lemma_remove_first_listed(cur);
            }
            let _gone = self.settled_beyond.remove(0);
            proof {
                let now = self.settled_beyond@;
                assert forall|i: int| 0 <= i < now.len() implies self.highest_continuous_sn() + 1
                    < (#[trigger] now[i]) <= self.highest_received_sn() by {
                    assert(now[i] == cur[i + 1]);
                }
                assert forall|x: int| x >= first implies (#[trigger] spec_listed(now, x)
                    <==> spec_listed(before, x)) by {
                    assert(spec_listed(now, x) <==> spec_listed(cur, x) && x != cur[0]);
                    assert(spec_listed(cur, x) <==> spec_listed(before, x));
                }
            }
        }
        let ghost snapshot = *self;
        self.highest_continuous_sn = first - 1;
        proof {
            assert forall|i: int| 0 <= i < self.settled_beyond@.len() implies first <= (
            #[trigger] self.settled_beyond@[i]) by {
                if i > 0 {
                    assert(self.settled_beyond@[0] < self.settled_beyond@[i]);
                }
            }
            assert forall|x: int| self.is_settled(x) <==> old(self).is_settled(x) || (1 <= x
                < first) by {
                if x >= first {
                    assert(spec_listed(self.settled_beyond@, x) <==> spec_listed(before, x));
                } else {
                    if spec_listed(self.settled_beyond@, x) {
                        let i = choose|i: int|
                            0 <= i < self.settled_beyond@.len() && #[trigger] self.settled_beyond@[i]
                                == x;
                        assert(first <= self.settled_beyond@[i]);
                    }
                    if spec_listed(before, x) {
                        let i = choose|i: int| 0 <= i < before.len() && #[trigger] before[i] == x;
                        assert(old(self).highest_continuous_sn() + 1 < before[i]);
                    }
                }
            }
        }
        self.absorb();
    }

    /// Makes the acknowledgement of the reader: its base is the first
    /// number that is not settled, and its set lists the missing numbers
    /// among the 256 numbers from the base on. The count of
    /// acknowledgements goes up by one; at the largest count it stays.
    pub fn make_acknack(&mut self) -> (r: (SequenceNumberSet, i32))
        requires
            old(self).wf(),
            old(self).highest_continuous_sn() < i64::MAX,
        ensures
            final(self).wf(),
            final(self).highest_continuous_sn() == old(self).highest_continuous_sn(),
            final(self).highest_received_sn() == old(self).highest_received_sn(),
            final(self).settled_beyond() == old(self).settled_beyond(),
            final(self).last_heartbeat_count() == old(self).last_heartbeat_count(),
            final(self).guid() == old(self).guid(),
            r.0.wf(),
            r.0.base.value == old(self).highest_continuous_sn() + 1,
            r.0.bits@.len() == vstd::math::min(
                SEQUENCE_NUMBER_SET_MAX as int,
                old(self).highest_received_sn() - old(self).highest_continuous_sn(),
            ),
            forall|x: int|
                r.0.spec_contains(x) <==> old(self).is_missing(x) && x < r.0.base.value
                    + SEQUENCE_NUMBER_SET_MAX,
            r.1 == final(self).acknack_count(),
            final(self).acknack_count() == if old(self).acknack_count() < i32::MAX {
                old(self).acknack_count() + 1
            } else {
                old(self).acknack_count()
            },
    {
        let base: i64 = self.highest_continuous_sn + 1;
        let span: i128 = self.highest_received_sn as i128 - self.highest_continuous_sn as i128;
        let count: usize = if span >= SEQUENCE_NUMBER_SET_MAX as i128 {
            SEQUENCE_NUMBER_SET_MAX
        } else {
            span as usize
        };
        let mut bits: Vec<bool> = Vec::new();
        while bits.len() < count
            invariant
                self.wf(),
                base == self.highest_continuous_sn() + 1,
                count <= SEQUENCE_NUMBER_SET_MAX,
                count <= self.highest_received_sn() - self.highest_continuous_sn(),
                bits.len() <= count,
                forall|k: int| 0 <= k < bits.len() ==> bits@[k] == self.is_missing(base + k),
            decreases count - bits.len(),
        {
            let sn: i64 = base + bits.len() as i64;
            let (_place, found) = self.search(sn);
            bits.push(!found);
        }
        if self.acknack_count < i32::MAX {
            self.acknack_count = self.acknack_count + 1;
        }
        let set = SequenceNumberSet { base: SequenceNumber { value: base }, bits };
        proof {
            assert forall|x: int| set.spec_contains(x) <==> old(self).is_missing(x) && x
                < set.base.value + SEQUENCE_NUMBER_SET_MAX by {
                if old(self).is_missing(x) && x < base + SEQUENCE_NUMBER_SET_MAX {
                    assert(x >= base);
                    assert(set.bits@[x - base] == self.is_missing(base + (x - base)));
                }
                if set.spec_contains(x) {
                    assert(set.bits@[x - base] == self.is_missing(base + (x - base)));
                }
            }
        }
        (set, self.acknack_count)
    }
}

/// Where all numbers from 1 to `n` are settled, the continuous range
/// reaches `n`.
pub proof fn law_continuous_range_reaches(p: RtpsWriterProxy, n: int)
    requires
        p.wf(),
        forall|x: int| 1 <= x <= n ==> p.is_settled(x),
    ensures
        p.highest_continuous_sn() >= n,
{
    if p.highest_continuous_sn() < n {
        let x = p.highest_continuous_sn() + 1;
        assert(p.is_settled(x));
        assert(spec_listed(p.settled_beyond(), x));
        let i = choose|i: int| 0 <= i < p.settled_beyond().len() && #[trigger] p.settled_beyond()[i]
            == x;
        assert(p.highest_continuous_sn() + 1 < p.settled_beyond()[i]);
    }
}

} // verus!

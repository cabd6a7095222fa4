use crate::dds::ddsdata::DDSData;
use crate::dds::reader::Reader;
use crate::dds::rtps_writer_proxy::law_continuous_range_reaches;
use crate::dds::rtps_writer_proxy::RtpsWriterProxy;
use crate::dds::values::result::Result;
use crate::dds::writer::Writer;
use crate::structure::guid::GUID;
use crate::structure::sequence_number::SequenceNumber;
use crate::structure::sequence_number::SEQUENCE_NUMBER_SET_MAX;
use crate::structure::time::Timestamp;
use vstd::prelude::*;

verus! {

/// A change is delivered at most once: where a change with the number
/// `sn` of a matched writer has arrived at a reliable reader, the next
/// change with that number is not delivered.
pub proof fn law_no_second_delivery(
    first: Reader,
    then: Reader,
    last: Reader,
    writer: GUID,
    sn: SequenceNumber,
    delivered: bool,
    again: bool,
)
    requires
        first.wf(),
        first.reliable(),
        first.has_writer(writer),
        Reader::spec_data_handled(first, then, writer, sn, delivered),
        Reader::spec_data_handled(then, last, writer, sn, again),
    ensures
        !again,
{
    if sn.value >= 1 {
        assert(then.writer(writer).is_settled(sn.value as int));
    }
}

/// What was delivered stays delivered: a number of a writer that a
/// reliable reader has settled is still settled after another change of
/// that writer has arrived.
pub proof fn law_settled_stays_settled(
    before: Reader,
    after: Reader,
    writer: GUID,
    sn: SequenceNumber,
    delivered: bool,
    x: int,
)
    requires
        before.wf(),
        before.reliable(),
        before.has_writer(writer),
        before.writer(writer).is_settled(x),
        Reader::spec_data_handled(before, after, writer, sn, delivered),
    ensures
        after.writer(writer).is_settled(x),
{
}

/// Sequence numbers go up: of two writes of one writer that succeed, the
/// later gets the greater number, whatever is written in between.
pub proof fn law_sequence_numbers_increase(
    states: Seq<Writer>,
    data: Seq<DDSData>,
    stamps: Seq<Option<Timestamp>>,
    results: Seq<Result<SequenceNumber>>,
    i: int,
    j: int,
)
    requires
        states.len() == results.len() + 1,
        data.len() == results.len(),
        stamps.len() == results.len(),
        forall|k: int|
            0 <= k < results.len() ==> #[trigger] Writer::spec_written(
                states[k],
                states[k + 1],
                data[k],
                stamps[k],
                results[k],
            ),
        0 <= i < j < results.len(),
        results[i] is Ok,
        results[j] is Ok,
    ensures
        results[i]->Ok_0.value < results[j]->Ok_0.value,
{
    assert(Writer::spec_written(states[i], states[i + 1], data[i], stamps[i], results[i]));
    assert(Writer::spec_written(states[j], states[j + 1], data[j], stamps[j], results[j]));
    lemma_last_number_grows(states, data, stamps, results, i + 1, j);
}

/// The last number of a writer never goes down from write to write.
proof fn lemma_last_number_grows(
    states: Seq<Writer>,
    data: Seq<DDSData>,
    stamps: Seq<Option<Timestamp>>,
    results: Seq<Result<SequenceNumber>>,
    from: int,
    to: int,
)
    requires
        states.len() == results.len() + 1,
        data.len() == results.len(),
        stamps.len() == results.len(),
        forall|k: int|
            0 <= k < results.len() ==> #[trigger] Writer::spec_written(
                states[k],
                states[k + 1],
                data[k],
                stamps[k],
                results[k],
            ),
        0 <= from <= to <= results.len(),
    ensures
        states[from].last_sn() <= states[to].last_sn(),
    decreases to - from,
{
    if from < to {
        lemma_last_number_grows(states, data, stamps, results, from, to - 1);
        let k = to - 1;
        assert(Writer::spec_written(states[k], states[k + 1], data[k], stamps[k], results[k]));
    }
}

/// Every number up to the highest number known of the writer is settled or
/// missing, and a number is never both.
pub proof fn law_known_numbers_are_settled_or_missing(p: RtpsWriterProxy, x: int)
    requires
        p.wf(),
        1 <= x <= p.highest_received_sn(),
    ensures
        p.is_settled(x) != p.is_missing(x),
{
}

/// Recovery in one round trip: where a reader has settled every number
/// that it reported as missing in an acknowledgement, and lost none that
/// was settled, its continuous range reaches the highest number that it
/// knew of the writer, or the end of the 256 numbers that an
/// acknowledgement names.
pub proof fn law_recovery_in_one_round_trip(before: RtpsWriterProxy, after: RtpsWriterProxy)
    requires
        before.wf(),
        after.wf(),
        forall|x: int|
            #![trigger after.is_settled(x)]
            before.is_settled(x) ==> after.is_settled(x),
        forall|x: int|
            #![trigger after.is_settled(x)]
            before.is_missing(x) && x < before.highest_continuous_sn() + 1
                + SEQUENCE_NUMBER_SET_MAX ==> after.is_settled(x),
    ensures
        after.highest_continuous_sn() >= vstd::math::min(
            before.highest_received_sn(),
            before.highest_continuous_sn() + SEQUENCE_NUMBER_SET_MAX,
        ),
{
    let n = vstd::math::min(
        before.highest_received_sn(),
        before.highest_continuous_sn() + SEQUENCE_NUMBER_SET_MAX,
    );
    assert forall|x: int| 1 <= x <= n implies after.is_settled(x) by {
        if !before.is_settled(x) {
            assert(before.is_missing(x));
        }
    }
    law_continuous_range_reaches(after, n);
}

} // verus!

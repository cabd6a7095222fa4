use crate::messages::wire::law_sequence_number_round_trip;
use crate::messages::wire::spec_sequence_number;
use crate::messages::wire::spec_sequence_number_bytes;
use crate::messages::wire::write_sequence_number;
use crate::messages::wire::MessageError;
use crate::messages::wire::MessageResult;
use crate::messages::wire::WireReader;
use crate::serialization::byte_order::lemma_pow256_values;
use crate::serialization::byte_order::lemma_value_of_bytes;
use crate::serialization::byte_order::spec_bytes;
use crate::serialization::byte_order::spec_value;
use crate::serialization::byte_order::write_u32;
use crate::serialization::byte_order::Endianness;
use crate::structure::sequence_number::SequenceNumber;
use crate::structure::sequence_number::SequenceNumberSet;
use crate::structure::sequence_number::SEQUENCE_NUMBER_SET_MAX;
use vstd::arithmetic::power2::lemma2_to64;
use vstd::arithmetic::power2::lemma_pow2_strictly_increases;
use vstd::arithmetic::power2::lemma_pow2_unfold;
use vstd::arithmetic::power2::pow2;
use vstd::prelude::*;

verus! {

/// Whether the bit at position `i` is set; the bits beyond the end are
/// not.
pub open spec fn spec_bit(bits: Seq<bool>, i: int) -> bool {
    0 <= i < bits.len() && bits[i]
}

/// The number that the `n` bits from position `from` on spell, the first
/// bit being the most significant.
pub open spec fn spec_bits_value(bits: Seq<bool>, from: int, n: int) -> nat
    decreases n,
{
    if n <= 0 {
        0
    } else {
        2 * spec_bits_value(bits, from, n - 1) + (if spec_bit(bits, from + n - 1) {
            1nat
        } else {
            0nat
        })
    }
}

/// The lowest `n` bits of a number, the most significant first.
pub open spec fn spec_word_bits(word: nat, n: int) -> Seq<bool>
    decreases n,
{
    if n <= 0 {
        Seq::empty()
    } else {
        spec_word_bits(word / 2, n - 1).push(word % 2 == 1)
    }
}

/// Number of words that hold `count` bits.
pub open spec fn spec_word_count(count: int) -> int {
    (count + 31) / 32
}

/// The bytes of the first `words` words of the bitmap of `bits`.
pub open spec fn spec_bitmap_bytes(bits: Seq<bool>, words: int, e: Endianness) -> Seq<u8>
    decreases words,
{
    if words <= 0 {
        Seq::empty()
    } else {
        spec_bitmap_bytes(bits, words - 1, e) + spec_bytes(
            spec_bits_value(bits, 32 * (words - 1), 32),
            4,
            e,
        )
    }
}

/// The bits that the first `words` words of `input` hold.
pub open spec fn spec_bitmap_bits(input: Seq<u8>, words: int, e: Endianness) -> Seq<bool>
    decreases words,
{
    if words <= 0 {
        Seq::empty()
    } else {
        spec_bitmap_bits(input, words - 1, e) + spec_word_bits(
            spec_value(input.subrange(4 * (words - 1), 4 * words), e),
            32,
        )
    }
}

/// The bytes of a set on the wire: the base of its window, the number of
/// its bits, and the bits in words of 32, the first bit of a word being
/// its most significant.
pub open spec fn spec_set_bytes(base: SequenceNumber, bits: Seq<bool>, e: Endianness) -> Seq<u8> {
    spec_sequence_number_bytes(base, e) + spec_bytes(bits.len(), 4, e) + spec_bitmap_bytes(
        bits,
        spec_word_count(bits.len() as int),
        e,
    )
}

/// What parsing a set from the start of `input` gives: the base, the
/// bits, and the number of bytes that the set takes.
///
/// A set of more than 256 bits, or one whose window reaches beyond the
/// range of sequence numbers, is malformed.
pub open spec fn spec_parse_set(input: Seq<u8>, e: Endianness) -> MessageResult<
    (SequenceNumber, Seq<bool>, int),
> {
    if input.len() < 12 {
        Err(MessageError::Truncated)
    } else {
        let base = spec_sequence_number(input.subrange(0, 8), e);
        let count = spec_value(input.subrange(8, 12), e) as int;
        let words = spec_word_count(count);
        if count > 256 || base.value + count > i64::MAX + 1 {
            Err(MessageError::MalformedSubmessage)
        } else if input.len() < 12 + 4 * words {
            Err(MessageError::Truncated)
        } else {
            Ok((base, spec_bitmap_bits(input.skip(12), words, e).take(count), 12 + 4 * words))
        }
    }
}

/// The lowest `n` bits of a number are `n` bits.
pub proof fn lemma_word_bits_len(word: nat, n: int)
    requires
        n >= 0,
    ensures
        spec_word_bits(word, n).len() == n,
    decreases n,
{
    if n > 0 {
        lemma_word_bits_len(word / 2, n - 1);
    }
}

/// `words` words hold 32 bits each.
pub proof fn lemma_bitmap_bits_len(input: Seq<u8>, words: int, e: Endianness)
    requires
        words >= 0,
    ensures
        spec_bitmap_bits(input, words, e).len() == 32 * words,
    decreases words,
{
    if words > 0 {
        lemma_bitmap_bits_len(input, words - 1, e);
        lemma_word_bits_len(spec_value(input.subrange(4 * (words - 1), 4 * words), e), 32);
    }
}

/// The word with the 32 bits of `bits` from position `from` on.
fn word_of(bits: &Vec<bool>, from: usize) -> (word: u32)
    requires
        from <= SEQUENCE_NUMBER_SET_MAX,
    ensures
        word as nat == spec_bits_value(bits@, from as int, 32),
{
    let mut word: u64 = 0;
    let mut k: usize = 0;
    proof {
        lemma2_to64();
    }
    while k < 32
        invariant
            k <= 32,
            from <= SEQUENCE_NUMBER_SET_MAX,
            word as nat == spec_bits_value(bits@, from as int, k as int),
            word < pow2(k as nat),
        decreases 32 - k,
    {
        proof {
            lemma2_to64();
            lemma_pow2_strictly_increases(k as nat, 32);
            lemma_pow2_unfold((k + 1) as nat);
        }
        let bit: u64 = if from + k < bits.len() && bits[from + k] {
            1
        } else {
            0
        };
        word = 2 * word + bit;
        k += 1;
    }
    word as u32
}

/// Appends the 32 bits of `word`, the most significant first.
fn push_word_bits(out: &mut Vec<bool>, word: u32)
    ensures
        final(out)@ == old(out)@ + spec_word_bits(word as nat, 32),
{
    let ghost all = spec_word_bits(word as nat, 32);
    proof {
        lemma_word_bits_len(word as nat, 32);
    }
    // The bits from the least significant on.
    let mut low: Vec<bool> = Vec::new();
    let mut rest: u32 = word;
    let mut k: usize = 0;
    while k < 32
        invariant
            k <= 32,
            low@.len() == k,
            all.len() == 32,
            all.take(32 - k) == spec_word_bits(rest as nat, 32 - k),
            forall|j: int| 0 <= j < k ==> low@[j] == all[31 - j],
        decreases 32 - k,
    {
        proof {
            let m = 32 - k;
            lemma_word_bits_len((rest / 2) as nat, m - 1);
            assert(all.take(m)[m - 1] == (rest % 2 == 1));
            assert(all.take(m - 1) =~= all.take(m).take(m - 1));
            assert(spec_word_bits(rest as nat, m).take(m - 1) =~= spec_word_bits(
                (rest / 2) as nat,
                m - 1,
            ));
        }
        low.push(rest % 2 == 1);
        rest = rest / 2;
        k += 1;
    }
    let mut j: usize = 0;
    while j < 32
        invariant
            j <= 32,
            low@.len() == 32,
            all.len() == 32,
            forall|i: int| 0 <= i < 32 ==> low@[i] == all[31 - i],
            out@ == old(out)@ + all.take(j as int),
        decreases 32 - j,
    {
        out.push(low[31 - j]);
        assert(out@ =~= old(out)@ + all.take(j + 1));
        j += 1;
    }
    assert(all.take(32) =~= all);
}

impl SequenceNumberSet {
    /// Parses a set at the position of the reader.
    pub fn read_from(reader: &mut WireReader) -> (r: MessageResult<SequenceNumberSet>)
        ensures
            final(reader).endianness() == old(reader).endianness(),
            match spec_parse_set(old(reader).remaining(), old(reader).endianness()) {
                Ok((base, bits, used)) => {
                    &&& r matches Ok(set) && set.base == base && set.bits@ == bits && set.wf()
                    &&& final(reader).remaining() == old(reader).remaining().skip(used)
                },
                Err(e) => r == Err::<SequenceNumberSet, MessageError>(e),
            },
    {
        let ghost input = reader.remaining();
        let ghost e = reader.endianness();
        if reader.remaining_len() < 12 {
            return Err(MessageError::Truncated);
        }
        let base = match reader.read_sequence_number() {
            Ok(base) => base,
            Err(err) => {
                return Err(err);
            },
        };
        let count = match reader.read_u32() {
            Ok(count) => count,
            Err(err) => {
                return Err(err);
            },
        };
        assert(input.skip(8).subrange(0, 4) =~= input.subrange(8, 12));
        assert(input.skip(8).skip(4) =~= input.skip(12));
        if count > 256 || base.value as i128 + count as i128 > i64::MAX as i128 + 1 {
            return Err(MessageError::MalformedSubmessage);
        }
        let words: usize = (count as usize + 31) / 32;
        if reader.remaining_len() < 4 * words {
            return Err(MessageError::Truncated);
        }
        let mut bits: Vec<bool> = Vec::new();
        let mut w: usize = 0;
        while w < words
            invariant
                w <= words <= 8,
                input.len() >= 12 + 4 * words,
                reader.endianness() == e,
                reader.remaining() == input.skip(12 + 4 * w),
                bits@ == spec_bitmap_bits(input.skip(12), w as int, e),
            decreases words - w,
        {
            let word = match reader.read_u32() {
                Ok(word) => word,
                Err(err) => {
                    return Err(err);
                },
            };
            proof {
                assert(input.skip(12 + 4 * w).subrange(0, 4) =~= input.skip(12).subrange(
                    4 * w,
                    4 * (w + 1),
                ));
                assert(input.skip(12 + 4 * w).skip(4) =~= input.skip(12 + 4 * (w + 1)));
            }
            push_word_bits(&mut bits, word);
            w += 1;
        }
        proof {
            lemma_bitmap_bits_len(input.skip(12), words as int, e);
        }
        bits.truncate(count as usize);
        Ok(SequenceNumberSet { base, bits })
    }

    /// Appends the bytes of the set.
    pub fn write_to(&self, out: &mut Vec<u8>, e: Endianness)
        requires
            self.wf(),
        ensures
            final(out)@ == old(out)@ + spec_set_bytes(self.base, self.bits@, e),
    {
        let ghost start = out@;
        write_sequence_number(out, self.base, e);
        write_u32(out, self.bits.len() as u32, e);
        let words: usize = (self.bits.len() + 31) / 32;
        let mut w: usize = 0;
        while w < words
            invariant
                w <= words <= 8,
                self.wf(),
                out@ == start + spec_sequence_number_bytes(self.base, e) + spec_bytes(
                    self.bits@.len(),
                    4,
                    e,
                ) + spec_bitmap_bytes(self.bits@, w as int, e),
            decreases words - w,
        {
            let ghost before = out@;
            let word = word_of(&self.bits, 32 * w);
            write_u32(out, word, e);
            assert(out@ =~= start + spec_sequence_number_bytes(self.base, e) + spec_bytes(
                self.bits@.len(),
                4,
                e,
            ) + spec_bitmap_bytes(self.bits@, w + 1, e));
            w += 1;
        }
        assert(out@ =~= start + spec_set_bytes(self.base, self.bits@, e));
    }
}

/// The bits of `bits` from position `from` on, `n` of them; the bits
/// beyond the end are not set.
pub open spec fn spec_window(bits: Seq<bool>, from: int, n: int) -> Seq<bool> {
    Seq::new(n as nat, |i: int| spec_bit(bits, from + i))
}

/// A number spelled by `n` bits is below the `n`-th power of two, and its
/// lowest `n` bits are the bits that spell it.
pub proof fn lemma_word_round_trip(bits: Seq<bool>, from: int, n: int)
    requires
        n >= 0,
    ensures
        spec_bits_value(bits, from, n) < pow2(n as nat),
        spec_word_bits(spec_bits_value(bits, from, n), n) == spec_window(bits, from, n),
    decreases n,
{
    if n > 0 {
        lemma_word_round_trip(bits, from, n - 1);
        lemma_pow2_unfold(n as nat);
        let less = spec_bits_value(bits, from, n - 1);
        let all = spec_bits_value(bits, from, n);
        assert(all / 2 == less && (all % 2 == 1) == spec_bit(bits, from + n - 1));
        assert(spec_word_bits(all, n) =~= spec_window(bits, from, n));
    } else {
        lemma2_to64();
        assert(spec_word_bits(spec_bits_value(bits, from, n), n) =~= spec_window(bits, from, n));
    }
}

/// The words of a bitmap take four bytes each.
pub proof fn lemma_bitmap_bytes_len(bits: Seq<bool>, words: int, e: Endianness)
    requires
        words >= 0,
    ensures
        spec_bitmap_bytes(bits, words, e).len() == 4 * words,
    decreases words,
{
    if words > 0 {
        lemma_bitmap_bytes_len(bits, words - 1, e);
        lemma_word_round_trip(bits, 32 * (words - 1), 32);
        lemma2_to64();
        lemma_pow256_values();
        lemma_value_of_bytes(spec_bits_value(bits, 32 * (words - 1), 32), 4, e);
    }
}

/// The bits read from the words of a bitmap are the bits that were
/// written, followed by unset bits up to the end of the last word.
pub proof fn lemma_bitmap_round_trip(bits: Seq<bool>, input: Seq<u8>, words: int, e: Endianness)
    requires
        words >= 0,
        input.len() >= 4 * words,
        input.subrange(0, 4 * words) == spec_bitmap_bytes(bits, words, e),
    ensures
        spec_bitmap_bits(input, words, e) == spec_window(bits, 0, 32 * words),
    decreases words,
{
    if words > 0 {
        let less = spec_bitmap_bytes(bits, words - 1, e);
        let word = spec_bits_value(bits, 32 * (words - 1), 32);
        lemma_bitmap_bytes_len(bits, words - 1, e);
        lemma_word_round_trip(bits, 32 * (words - 1), 32);
        lemma2_to64();
        lemma_pow256_values();
        lemma_value_of_bytes(word, 4, e);
        assert(input.subrange(0, 4 * (words - 1)) =~= input.subrange(0, 4 * words).subrange(
            0,
            4 * (words - 1),
        ));
        assert(input.subrange(0, 4 * (words - 1)) =~= less);
        assert(input.subrange(4 * (words - 1), 4 * words) =~= input.subrange(0, 4 * words).subrange(
            4 * (words - 1),
            4 * words,
        ));
        assert(input.subrange(4 * (words - 1), 4 * words) =~= spec_bytes(word, 4, e));
        lemma_bitmap_round_trip(bits, input, words - 1, e);
        assert(spec_bitmap_bits(input, words, e) =~= spec_window(bits, 0, 32 * words));
    } else {
        assert(spec_bitmap_bits(input, words, e) =~= spec_window(bits, 0, 32 * words));
    }
}

/// Parsing the bytes of a set gives the set back, and leaves what follows
/// the set unread.
pub proof fn law_set_round_trip(base: SequenceNumber, bits: Seq<bool>, e: Endianness, rest: Seq<u8>)
    requires
        bits.len() <= SEQUENCE_NUMBER_SET_MAX,
        base.value + bits.len() <= i64::MAX + 1,
    ensures
        spec_parse_set(spec_set_bytes(base, bits, e) + rest, e) == Ok::<
            (SequenceNumber, Seq<bool>, int),
            MessageError,
        >((base, bits, spec_set_bytes(base, bits, e).len() as int)),
{
    let words = spec_word_count(bits.len() as int);
    let written = spec_set_bytes(base, bits, e);
    let input = written + rest;
    law_sequence_number_round_trip(base, e);
    lemma_pow256_values();
    lemma_value_of_bytes(bits.len(), 4, e);
    lemma_bitmap_bytes_len(bits, words, e);
    assert(input.subrange(0, 8) =~= spec_sequence_number_bytes(base, e));
    assert(input.subrange(8, 12) =~= spec_bytes(bits.len(), 4, e));
    assert(input.skip(12).subrange(0, 4 * words) =~= spec_bitmap_bytes(bits, words, e));
    lemma_bitmap_round_trip(bits, input.skip(12), words, e);
    assert(spec_window(bits, 0, 32 * words).take(bits.len() as int) =~= bits);
}

} // verus!

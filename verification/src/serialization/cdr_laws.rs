use crate::serialization::byte_order::lemma_pow256_values;
use crate::serialization::byte_order::lemma_signed_of_unsigned;
use crate::serialization::byte_order::lemma_value_of_bytes;
use crate::serialization::byte_order::spec_bytes;
use crate::serialization::byte_order::spec_pow256;
use crate::serialization::byte_order::spec_signed;
use crate::serialization::byte_order::spec_unsigned;
use crate::serialization::byte_order::spec_value;
use crate::serialization::byte_order::spec_zeros;
use crate::serialization::byte_order::Endianness;
use crate::serialization::cdr_deserializer::spec_after_aligned;
use crate::serialization::cdr_deserializer::spec_aligned_bytes;
use crate::serialization::cdr_deserializer::spec_is_scalar;
use crate::serialization::cdr_deserializer::spec_padding;
use crate::serialization::cdr_serializer::spec_write_aligned;
use crate::serialization::cdr_serializer::spec_write_string;
use vstd::prelude::*;

verus! {

/// A value of `size` bytes that was written aligned after `buf` is found
/// by a reader that stands at the end of `buf`: the reader skips the same
/// padding, reads the bytes written, and is left with what follows them.
pub proof fn law_aligned_round_trip(buf: Seq<u8>, bytes: Seq<u8>, rest: Seq<u8>)
    requires
        bytes.len() > 0,
    ensures
        spec_aligned_bytes(
            (spec_write_aligned(buf, bytes) + rest).skip(buf.len() as int),
            buf.len(),
            bytes.len(),
        ) == Some(bytes),
        spec_after_aligned(
            (spec_write_aligned(buf, bytes) + rest).skip(buf.len() as int),
            buf.len(),
            bytes.len(),
        ) == (rest, spec_write_aligned(buf, bytes).len()),
{
    let size = bytes.len();
    let pad = spec_padding(buf.len(), size);
    let all = spec_write_aligned(buf, bytes) + rest;
    let rem = all.skip(buf.len() as int);
    assert(rem =~= spec_zeros(pad) + bytes + rest);
    assert(rem.skip(pad as int) =~= bytes + rest);
    assert((bytes + rest).subrange(0, size as int) =~= bytes);
    assert((bytes + rest).skip(size as int) =~= rest);
}

/// An unsigned number of `size` bytes that was written in a byte order is
/// read back in that byte order as the same number.
pub proof fn law_unsigned_round_trip(
    buf: Seq<u8>,
    n: nat,
    size: nat,
    e: Endianness,
    rest: Seq<u8>,
)
    requires
        size > 0,
        n < spec_pow256(size),
    ensures
        spec_aligned_bytes(
            (spec_write_aligned(buf, spec_bytes(n, size, e)) + rest).skip(buf.len() as int),
            buf.len(),
            size,
        ) matches Some(bytes) && spec_value(bytes, e) == n,
        spec_after_aligned(
            (spec_write_aligned(buf, spec_bytes(n, size, e)) + rest).skip(buf.len() as int),
            buf.len(),
            size,
        ) == (rest, spec_write_aligned(buf, spec_bytes(n, size, e)).len()),
{
    lemma_value_of_bytes(n, size, e);
    law_aligned_round_trip(buf, spec_bytes(n, size, e), rest);
}

/// A signed number of `size` bytes that was written in a byte order is
/// read back in that byte order as the same number.
pub proof fn law_signed_round_trip(buf: Seq<u8>, v: int, size: nat, e: Endianness, rest: Seq<u8>)
    requires
        size > 0,
        -(spec_pow256(size) as int) <= 2 * v < spec_pow256(size),
    ensures
        spec_aligned_bytes(
            (spec_write_aligned(buf, spec_bytes(spec_unsigned(v, size), size, e)) + rest).skip(
                buf.len() as int,
            ),
            buf.len(),
            size,
        ) matches Some(bytes) && spec_signed(spec_value(bytes, e), size) == v,
        spec_after_aligned(
            (spec_write_aligned(buf, spec_bytes(spec_unsigned(v, size), size, e)) + rest).skip(
                buf.len() as int,
            ),
            buf.len(),
            size,
        ) == (rest, spec_write_aligned(buf, spec_bytes(spec_unsigned(v, size), size, e)).len()),
{
    lemma_signed_of_unsigned(v, size);
    law_unsigned_round_trip(buf, spec_unsigned(v, size), size, e, rest);
}

/// A character that was written is read back as a scalar value, and as
/// the same character.
pub proof fn law_char_round_trip(buf: Seq<u8>, c: char, e: Endianness, rest: Seq<u8>)
    ensures
        spec_is_scalar(c as u32),
        spec_aligned_bytes(
            (spec_write_aligned(buf, spec_bytes(c as nat, 4, e)) + rest).skip(buf.len() as int),
            buf.len(),
            4,
        ) matches Some(bytes) && spec_value(bytes, e) == c as nat,
{
    vstd::utf8::char_is_scalar(c);
    lemma_pow256_values();
    assert(spec_is_scalar(c as u32)) by {
        vstd::utf8::char_is_scalar(c);
        assert(vstd::utf8::is_scalar(c as u32));
    }
    law_unsigned_round_trip(buf, c as nat, 4, e, rest);
}

/// A string that was written is read back: the reader finds the length of
/// text and terminator, then the text, which is UTF-8 and decodes to the
/// characters written, and is left with what follows the terminator.
pub proof fn law_string_round_trip(buf: Seq<u8>, chars: Seq<char>, e: Endianness, rest: Seq<u8>)
    requires
        vstd::utf8::encode_utf8(chars).len() + 1 < spec_pow256(4),
    ensures
        ({
            let text = vstd::utf8::encode_utf8(chars);
            let all = spec_write_string(buf, text, e) + rest;
            let rem = all.skip(buf.len() as int);
            let after = spec_after_aligned(rem, buf.len(), 4);
            &&& spec_aligned_bytes(rem, buf.len(), 4) matches Some(bytes) && spec_value(bytes, e)
                == text.len() + 1
            &&& text.len() + 1 <= after.0.len()
            &&& after.0.subrange(0, text.len() as int) == text
            &&& vstd::utf8::valid_utf8(text)
            &&& vstd::utf8::decode_utf8(text) == chars
            &&& after.0.skip(text.len() as int + 1) == rest
        }),
{
    let text = vstd::utf8::encode_utf8(chars);
    let header = spec_bytes((text.len() + 1) as nat, 4, e);
    let tail = text + seq![0u8] + rest;
    assert(spec_write_string(buf, text, e) + rest =~= spec_write_aligned(buf, header) + tail);
    law_unsigned_round_trip(buf, (text.len() + 1) as nat, 4, e, tail);
    assert(tail.subrange(0, text.len() as int) =~= text);
    assert(tail.skip(text.len() as int + 1) =~= rest);
    vstd::utf8::encode_utf8_valid_utf8(chars);
    vstd::utf8::encode_utf8_decode_utf8(chars);
}

/// Two strings with the same UTF-8 bytes have the same characters.
pub proof fn law_utf8_injective(a: Seq<char>, b: Seq<char>)
    requires
        vstd::utf8::encode_utf8(a) == vstd::utf8::encode_utf8(b),
    ensures
        a == b,
{
    vstd::utf8::encode_utf8_decode_utf8(a);
    vstd::utf8::encode_utf8_decode_utf8(b);
}

} // verus!

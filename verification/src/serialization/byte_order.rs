use byteorder::ByteOrder;
use vstd::prelude::*;

verus! {

/// The order in which the bytes of a number stand on the wire.
#[derive(Clone, Copy, Debug, PartialEq, Eq, Structural, Hash)]
pub enum Endianness {
    LittleEndian,
    BigEndian,
}

/// The number 256 raised to the power `len`.
pub open spec fn spec_pow256(len: nat) -> nat
    decreases len,
{
    if len == 0 {
        1
    } else {
        256 * spec_pow256((len - 1) as nat)
    }
}

/// The number whose little-endian bytes are `s`.
pub open spec fn spec_le_value(s: Seq<u8>) -> nat
    decreases s.len(),
{
    if s.len() == 0 {
        0
    } else {
        s[0] as nat + 256 * spec_le_value(s.skip(1))
    }
}

/// The `len` low bytes of `n`, least significant first.
pub open spec fn spec_le_bytes(n: nat, len: nat) -> Seq<u8>
    decreases len,
{
    if len == 0 {
        Seq::empty()
    } else {
        seq![(n % 256) as u8] + spec_le_bytes(n / 256, (len - 1) as nat)
    }
}

/// The number whose bytes in the order `e` are `s`.
pub open spec fn spec_value(s: Seq<u8>, e: Endianness) -> nat {
    match e {
        Endianness::LittleEndian => spec_le_value(s),
        Endianness::BigEndian => spec_le_value(s.reverse()),
    }
}

/// The `len` low bytes of `n` in the order `e`.
pub open spec fn spec_bytes(n: nat, len: nat, e: Endianness) -> Seq<u8> {
    match e {
        Endianness::LittleEndian => spec_le_bytes(n, len),
        Endianness::BigEndian => spec_le_bytes(n, len).reverse(),
    }
}

/// The unsigned number that has the same `8 * len` bits as the signed
/// number `v` in two's complement.
pub open spec fn spec_unsigned(v: int, len: nat) -> nat {
    if v >= 0 {
        v as nat
    } else {
        (v + spec_pow256(len)) as nat
    }
}

/// The signed number that has the same `8 * len` bits as the unsigned
/// number `n` in two's complement.
pub open spec fn spec_signed(n: nat, len: nat) -> int {
    if 2 * n < spec_pow256(len) {
        n as int
    } else {
        n - spec_pow256(len)
    }
}

/// The values of the powers of 256 that the codecs use.
pub proof fn lemma_pow256_values()
    ensures
        spec_pow256(0) == 1,
        spec_pow256(1) == 0x100,
        spec_pow256(2) == 0x1_0000,
        spec_pow256(4) == 0x1_0000_0000,
        spec_pow256(8) == 0x1_0000_0000_0000_0000,
{
    reveal_with_fuel(spec_pow256, 9);
}

/// The bytes of a number are as many as asked for.
pub proof fn lemma_le_bytes_len(n: nat, len: nat)
    ensures
        spec_le_bytes(n, len).len() == len,
    decreases len,
{
    if len > 0 {
        lemma_le_bytes_len(n / 256, (len - 1) as nat);
    }
}

/// A number below `256^len` is the value of its `len` bytes.
pub proof fn lemma_le_value_of_bytes(n: nat, len: nat)
    requires
        n < spec_pow256(len),
    ensures
        spec_le_value(spec_le_bytes(n, len)) == n,
    decreases len,
{
    if len > 0 {
        let rest = spec_le_bytes(n / 256, (len - 1) as nat);
        let all = spec_le_bytes(n, len);
        lemma_le_bytes_len(n / 256, (len - 1) as nat);
        assert(all.skip(1) =~= rest);
        assert(all[0] == (n % 256) as u8);
        assert(n / 256 < spec_pow256((len - 1) as nat));
        lemma_le_value_of_bytes(n / 256, (len - 1) as nat);
        assert(n == n % 256 + 256 * (n / 256));
    }
}

/// Encoding a number below `256^len` and decoding it in the same byte
/// order gives the number back.
pub proof fn lemma_value_of_bytes(n: nat, len: nat, e: Endianness)
    requires
        n < spec_pow256(len),
    ensures
        spec_bytes(n, len, e).len() == len,
        spec_value(spec_bytes(n, len, e), e) == n,
{
    lemma_le_bytes_len(n, len);
    lemma_le_value_of_bytes(n, len);
    assert(spec_le_bytes(n, len).reverse().reverse() =~= spec_le_bytes(n, len));
}

/// Turning a signed number into the unsigned number of the same bits and
/// back gives the signed number.
pub proof fn lemma_signed_of_unsigned(v: int, len: nat)
    requires
        len > 0,
        -(spec_pow256(len) as int) <= 2 * v < spec_pow256(len),
    ensures
        spec_unsigned(v, len) < spec_pow256(len),
        spec_signed(spec_unsigned(v, len), len) == v,
{
}

/// Calls `byteorder::LittleEndian::read_u16`, which gives the number whose
/// little-endian bytes are the first two bytes of the buffer.
#[verifier::external_body]
fn le_read_u16(buf: &[u8]) -> (r: u16)
    requires
        buf@.len() >= 2,
    ensures
        r as nat == spec_le_value(buf@.subrange(0, 2)),
{
    byteorder::LittleEndian::read_u16(buf)
}

/// Calls `byteorder::LittleEndian::read_u32`, which gives the number whose
/// little-endian bytes are the first four bytes of the buffer.
#[verifier::external_body]
fn le_read_u32(buf: &[u8]) -> (r: u32)
    requires
        buf@.len() >= 4,
    ensures
        r as nat == spec_le_value(buf@.subrange(0, 4)),
{
    byteorder::LittleEndian::read_u32(buf)
}

/// Calls `byteorder::LittleEndian::read_u64`, which gives the number whose
/// little-endian bytes are the first eight bytes of the buffer.
#[verifier::external_body]
fn le_read_u64(buf: &[u8]) -> (r: u64)
    requires
        buf@.len() >= 8,
    ensures
        r as nat == spec_le_value(buf@.subrange(0, 8)),
{
    byteorder::LittleEndian::read_u64(buf)
}

/// Calls `byteorder::BigEndian::read_u16`, which gives the number whose
/// big-endian bytes are the first two bytes of the buffer.
#[verifier::external_body]
fn be_read_u16(buf: &[u8]) -> (r: u16)
    requires
        buf@.len() >= 2,
    ensures
        r as nat == spec_le_value(buf@.subrange(0, 2).reverse()),
{
    byteorder::BigEndian::read_u16(buf)
}

/// Calls `byteorder::BigEndian::read_u32`, which gives the number whose
/// big-endian bytes are the first four bytes of the buffer.
#[verifier::external_body]
fn be_read_u32(buf: &[u8]) -> (r: u32)
    requires
        buf@.len() >= 4,
    ensures
        r as nat == spec_le_value(buf@.subrange(0, 4).reverse()),
{
    byteorder::BigEndian::read_u32(buf)
}

/// Calls `byteorder::BigEndian::read_u64`, which gives the number whose
/// big-endian bytes are the first eight bytes of the buffer.
#[verifier::external_body]
fn be_read_u64(buf: &[u8]) -> (r: u64)
    requires
        buf@.len() >= 8,
    ensures
        r as nat == spec_le_value(buf@.subrange(0, 8).reverse()),
{
    byteorder::BigEndian::read_u64(buf)
}

/// Calls `byteorder::LittleEndian::write_u16` on a buffer of two bytes,
/// which fills it with the bytes of the number, least significant first.
#[verifier::external_body]
fn le_write_u16(n: u16) -> (b: [u8; 2])
    ensures
        b@ == spec_le_bytes(n as nat, 2),
{
    let mut b = [0u8; 2];
    byteorder::LittleEndian::write_u16(&mut b, n);
    b
}

/// Calls `byteorder::LittleEndian::write_u32` on a buffer of four bytes,
/// which fills it with the bytes of the number, least significant first.
#[verifier::external_body]
fn le_write_u32(n: u32) -> (b: [u8; 4])
    ensures
        b@ == spec_le_bytes(n as nat, 4),
{
    let mut b = [0u8; 4];
    byteorder::LittleEndian::write_u32(&mut b, n);
    b
}

/// Calls `byteorder::LittleEndian::write_u64` on a buffer of eight bytes,
/// which fills it with the bytes of the number, least significant first.
#[verifier::external_body]
fn le_write_u64(n: u64) -> (b: [u8; 8])
    ensures
        b@ == spec_le_bytes(n as nat, 8),
{
    let mut b = [0u8; 8];
    byteorder::LittleEndian::write_u64(&mut b, n);
    b
}

/// Calls `byteorder::BigEndian::write_u16` on a buffer of two bytes, which
/// fills it with the bytes of the number, most significant first.
#[verifier::external_body]
fn be_write_u16(n: u16) -> (b: [u8; 2])
    ensures
        b@ == spec_le_bytes(n as nat, 2).reverse(),
{
    let mut b = [0u8; 2];
    byteorder::BigEndian::write_u16(&mut b, n);
    b
}

/// Calls `byteorder::BigEndian::write_u32` on a buffer of four bytes,
/// which fills it with the bytes of the number, most significant first.
#[verifier::external_body]
fn be_write_u32(n: u32) -> (b: [u8; 4])
    ensures
        b@ == spec_le_bytes(n as nat, 4).reverse(),
{
    let mut b = [0u8; 4];
    byteorder::BigEndian::write_u32(&mut b, n);
    b
}

/// Calls `byteorder::BigEndian::write_u64` on a buffer of eight bytes,
/// which fills it with the bytes of the number, most significant first.
#[verifier::external_body]
fn be_write_u64(n: u64) -> (b: [u8; 8])
    ensures
        b@ == spec_le_bytes(n as nat, 8).reverse(),
{
    let mut b = [0u8; 8];
    byteorder::BigEndian::write_u64(&mut b, n);
    b
}

/// Reads the 16-bit number that the first two bytes of `buf` hold in the
/// byte order `e`.
pub fn read_u16(buf: &[u8], e: Endianness) -> (r: u16)
    requires
        buf@.len() >= 2,
    ensures
        r as nat == spec_value(buf@.subrange(0, 2), e),
{
    match e {
        Endianness::LittleEndian => le_read_u16(buf),
        Endianness::BigEndian => be_read_u16(buf),
    }
}

/// Reads the 32-bit number that the first four bytes of `buf` hold in the
/// byte order `e`.
pub fn read_u32(buf: &[u8], e: Endianness) -> (r: u32)
    requires
        buf@.len() >= 4,
    ensures
        r as nat == spec_value(buf@.subrange(0, 4), e),
{
    match e {
        Endianness::LittleEndian => le_read_u32(buf),
        Endianness::BigEndian => be_read_u32(buf),
    }
}

/// Reads the 64-bit number that the first eight bytes of `buf` hold in the
/// byte order `e`.
pub fn read_u64(buf: &[u8], e: Endianness) -> (r: u64)
    requires
        buf@.len() >= 8,
    ensures
        r as nat == spec_value(buf@.subrange(0, 8), e),
{
    match e {
        Endianness::LittleEndian => le_read_u64(buf),
        Endianness::BigEndian => be_read_u64(buf),
    }
}

/// The signed 16-bit number with the bits of `n`.
pub fn signed_16(n: u16) -> (r: i16)
    ensures
        r as int == spec_signed(n as nat, 2),
{
    proof {
        lemma_pow256_values();
    }
    if n < 0x8000 {
        n as i16
    } else {
        (n as i32 - 0x1_0000i32) as i16
    }
}

/// The signed 32-bit number with the bits of `n`.
pub fn signed_32(n: u32) -> (r: i32)
    ensures
        r as int == spec_signed(n as nat, 4),
{
    proof {
        lemma_pow256_values();
    }
    if n < 0x8000_0000 {
        n as i32
    } else {
        (n as i64 - 0x1_0000_0000i64) as i32
    }
}

/// The signed 64-bit number with the bits of `n`.
pub fn signed_64(n: u64) -> (r: i64)
    ensures
        r as int == spec_signed(n as nat, 8),
{
    proof {
        lemma_pow256_values();
    }
    if n < 0x8000_0000_0000_0000 {
        n as i64
    } else {
        (n as i128 - 0x1_0000_0000_0000_0000i128) as i64
    }
}

/// The unsigned 16-bit number with the bits of `v`.
pub fn unsigned_16(v: i16) -> (r: u16)
    ensures
        r as nat == spec_unsigned(v as int, 2),
{
    proof {
        lemma_pow256_values();
    }
    if v >= 0 {
        v as u16
    } else {
        (v as i32 + 0x1_0000i32) as u16
    }
}

/// The unsigned 32-bit number with the bits of `v`.
pub fn unsigned_32(v: i32) -> (r: u32)
    ensures
        r as nat == spec_unsigned(v as int, 4),
{
    proof {
        lemma_pow256_values();
    }
    if v >= 0 {
        v as u32
    } else {
        (v as i64 + 0x1_0000_0000i64) as u32
    }
}

/// The unsigned 64-bit number with the bits of `v`.
pub fn unsigned_64(v: i64) -> (r: u64)
    ensures
        r as nat == spec_unsigned(v as int, 8),
{
    proof {
        lemma_pow256_values();
    }
    if v >= 0 {
        v as u64
    } else {
        (v as i128 + 0x1_0000_0000_0000_0000i128) as u64
    }
}

/// Appends the two bytes of `n` in the byte order `e`.
pub fn write_u16(out: &mut Vec<u8>, n: u16, e: Endianness)
    ensures
        final(out)@ == old(out)@ + spec_bytes(n as nat, 2, e),
{
    let b = match e {
        Endianness::LittleEndian => le_write_u16(n),
        Endianness::BigEndian => be_write_u16(n),
    };
    let ghost start = out@;
    out.push(b[0]);
    out.push(b[1]);
    assert(out@ =~= start + b@);
}

/// Appends the four bytes of `n` in the byte order `e`.
pub fn write_u32(out: &mut Vec<u8>, n: u32, e: Endianness)
    ensures
        final(out)@ == old(out)@ + spec_bytes(n as nat, 4, e),
{
    let b = match e {
        Endianness::LittleEndian => le_write_u32(n),
        Endianness::BigEndian => be_write_u32(n),
    };
    let ghost start = out@;
    out.push(b[0]);
    out.push(b[1]);
    out.push(b[2]);
    out.push(b[3]);
    assert(out@ =~= start + b@);
}

/// Appends the eight bytes of `n` in the byte order `e`.
pub fn write_u64(out: &mut Vec<u8>, n: u64, e: Endianness)
    ensures
        final(out)@ == old(out)@ + spec_bytes(n as nat, 8, e),
{
    let b = match e {
        Endianness::LittleEndian => le_write_u64(n),
        Endianness::BigEndian => be_write_u64(n),
    };
    let ghost start = out@;
    out.push(b[0]);
    out.push(b[1]);
    out.push(b[2]);
    out.push(b[3]);
    out.push(b[4]);
    out.push(b[5]);
    out.push(b[6]);
    out.push(b[7]);
    assert(out@ =~= start + b@);
}

/// Appends the bytes of `bytes`.
pub fn write_bytes(out: &mut Vec<u8>, bytes: &[u8])
    ensures
        final(out)@ == old(out)@ + bytes@,
{
    let ghost start = out@;
    let mut i: usize = 0;
    while i < bytes.len()
        invariant
            i <= bytes.len(),
            out@ == start + bytes@.subrange(0, i as int),
        decreases bytes.len() - i,
    {
        out.push(bytes[i]);
        assert(out@ =~= start + bytes@.subrange(0, i as int + 1));
        i += 1;
    }
    assert(bytes@.subrange(0, bytes@.len() as int) =~= bytes@);
}

/// `count` bytes of value zero.
pub open spec fn spec_zeros(count: nat) -> Seq<u8> {
    Seq::new(count, |i: int| 0u8)
}

/// Appends `count` bytes of value zero.
pub fn write_zeros(out: &mut Vec<u8>, count: usize)
    ensures
        final(out)@ == old(out)@ + spec_zeros(count as nat),
{
    let ghost start = out@;
    let mut i: usize = 0;
    while i < count
        invariant
            i <= count,
            out@ == start + spec_zeros(i as nat),
        decreases count - i,
    {
        out.push(0u8);
        assert(out@ =~= start + spec_zeros((i + 1) as nat));
        i += 1;
    }
}

/// Whether two slices hold the same bytes.
pub fn same_bytes(a: &[u8], b: &[u8]) -> (same: bool)
    ensures
        same == (a@ == b@),
{
    if a.len() != b.len() {
        return false;
    }
    let mut i: usize = 0;
    while i < a.len()
        invariant
            i <= a@.len(),
            a@.len() == b@.len(),
            forall|k: int| 0 <= k < i ==> a@[k] == b@[k],
        decreases a@.len() - i,
    {
        if a[i] != b[i] {
            return false;
        }
        i += 1;
    }
    assert(a@ =~= b@);
    true
}

} // verus!

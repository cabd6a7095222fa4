use crate::structure::guid::GUID;
use vstd::prelude::*;

verus! {

/// The sixteen-byte hash that identifies an instance key on the wire, held
/// as one big-endian number.
#[derive(Clone, Copy, Debug, PartialEq, Eq, Structural, Hash, PartialOrd, Ord)]
pub struct KeyHash {
    pub value: u128,
}

/// Weight of the first byte of a sixteen-byte big-endian number.
pub const KEY_HASH_BYTE_0: u128 = 0x100_0000_0000_0000_0000_0000_0000_0000;

/// Weight of the last byte of a leading two-byte field.
pub const KEY_HASH_BYTE_1: u128 = 0x1_0000_0000_0000_0000_0000_0000_0000;

/// Weight of the last byte of a leading four-byte field.
pub const KEY_HASH_BYTE_3: u128 = 0x1_0000_0000_0000_0000_0000_0000;

/// Weight of the last byte of a leading eight-byte field.
pub const KEY_HASH_BYTE_7: u128 = 0x1_0000_0000_0000_0000;

/// The value that identifies one instance of a keyed topic.
///
/// Keys are totally ordered by `spec_lt`; an implementation shows that the
/// order is strict and total, and that its executable comparisons decide it.
pub trait Key: Sized {
    /// The strict order of keys.
    spec fn spec_lt(&self, other: &Self) -> bool;

    /// The hash that stands for the key on the wire.
    spec fn spec_hash_key(&self) -> KeyHash;

    /// `spec_lt` is irreflexive, transitive and total.
    proof fn lemma_strict_total_order(a: Self, b: Self, c: Self)
        ensures
            !a.spec_lt(&a),
            a.spec_lt(&b) && b.spec_lt(&c) ==> a.spec_lt(&c),
            a.spec_lt(&b) || b.spec_lt(&a) || a == b,
    ;

    /// Whether two keys are the same key.
    fn key_eq(&self, other: &Self) -> (b: bool)
        ensures
            b == (*self == *other),
    ;

    /// Whether this key comes strictly before `other`.
    fn key_lt(&self, other: &Self) -> (b: bool)
        ensures
            b == self.spec_lt(other),
    ;

    /// A copy of the key.
    fn clone_key(&self) -> (k: Self)
        ensures
            k == *self,
    ;

    /// The hash of the key.
    fn into_hash_key(&self) -> (h: KeyHash)
        ensures
            h == self.spec_hash_key(),
    ;
}

/// A data type whose values each belong to one instance, named by a key.
pub trait Keyed {
    type K: Key;

    /// The key of the instance that this value belongs to.
    spec fn spec_key(&self) -> Self::K;

    /// Projects the key out of the value.
    fn get_key(&self) -> (k: Self::K)
        ensures
            k == self.spec_key(),
    ;
}

/// The key of a topic without keys: all values belong to one instance.
impl Key for () {
    open spec fn spec_lt(&self, other: &Self) -> bool {
        false
    }

    open spec fn spec_hash_key(&self) -> KeyHash {
        KeyHash { value: 0 }
    }

    proof fn lemma_strict_total_order(a: Self, b: Self, c: Self) {
    }

    fn key_eq(&self, other: &Self) -> (b: bool) {
        true
    }

    fn key_lt(&self, other: &Self) -> (b: bool) {
        false
    }

    fn clone_key(&self) -> (k: Self) {
        ()
    }

    fn into_hash_key(&self) -> (h: KeyHash) {
        KeyHash { value: 0 }
    }
}

impl Key for u8 {
    open spec fn spec_lt(&self, other: &Self) -> bool {
        *self < *other
    }

    open spec fn spec_hash_key(&self) -> KeyHash {
        KeyHash { value: (*self as int * KEY_HASH_BYTE_0 as int) as u128 }
    }

    proof fn lemma_strict_total_order(a: Self, b: Self, c: Self) {
    }

    fn key_eq(&self, other: &Self) -> (b: bool) {
        *self == *other
    }

    fn key_lt(&self, other: &Self) -> (b: bool) {
        *self < *other
    }

    fn clone_key(&self) -> (k: Self) {
        *self
    }

    fn into_hash_key(&self) -> (h: KeyHash) {
        KeyHash { value: (*self as u128) * KEY_HASH_BYTE_0 }
    }
}

impl Key for u16 {
    open spec fn spec_lt(&self, other: &Self) -> bool {
        *self < *other
    }

    open spec fn spec_hash_key(&self) -> KeyHash {
        KeyHash { value: (*self as int * KEY_HASH_BYTE_1 as int) as u128 }
    }

    proof fn lemma_strict_total_order(a: Self, b: Self, c: Self) {
    }

    fn key_eq(&self, other: &Self) -> (b: bool) {
        *self == *other
    }

    fn key_lt(&self, other: &Self) -> (b: bool) {
        *self < *other
    }

    fn clone_key(&self) -> (k: Self) {
        *self
    }

    fn into_hash_key(&self) -> (h: KeyHash) {
        KeyHash { value: (*self as u128) * KEY_HASH_BYTE_1 }
    }
}

impl Key for u32 {
    open spec fn spec_lt(&self, other: &Self) -> bool {
        *self < *other
    }

    open spec fn spec_hash_key(&self) -> KeyHash {
        KeyHash { value: (*self as int * KEY_HASH_BYTE_3 as int) as u128 }
    }

    proof fn lemma_strict_total_order(a: Self, b: Self, c: Self) {
    }

    fn key_eq(&self, other: &Self) -> (b: bool) {
        *self == *other
    }

    fn key_lt(&self, other: &Self) -> (b: bool) {
        *self < *other
    }

    fn clone_key(&self) -> (k: Self) {
        *self
    }

    fn into_hash_key(&self) -> (h: KeyHash) {
        KeyHash { value: (*self as u128) * KEY_HASH_BYTE_3 }
    }
}

impl Key for u64 {
    open spec fn spec_lt(&self, other: &Self) -> bool {
        *self < *other
    }

    open spec fn spec_hash_key(&self) -> KeyHash {
        KeyHash { value: (*self as int * KEY_HASH_BYTE_7 as int) as u128 }
    }

    proof fn lemma_strict_total_order(a: Self, b: Self, c: Self) {
    }

    fn key_eq(&self, other: &Self) -> (b: bool) {
        *self == *other
    }

    fn key_lt(&self, other: &Self) -> (b: bool) {
        *self < *other
    }

    fn clone_key(&self) -> (k: Self) {
        *self
    }

    fn into_hash_key(&self) -> (h: KeyHash) {
        KeyHash { value: (*self as u128) * KEY_HASH_BYTE_7 }
    }
}

/// The unsigned number with the same two's-complement bytes as `k`.
pub open spec fn spec_unsigned_32(k: i32) -> int {
    if k >= 0 {
        k as int
    } else {
        k as int + 0x1_0000_0000
    }
}

/// The unsigned number with the same two's-complement bytes as `k`.
pub open spec fn spec_unsigned_64(k: i64) -> int {
    if k >= 0 {
        k as int
    } else {
        k as int + 0x1_0000_0000_0000_0000
    }
}

impl Key for i32 {
    open spec fn spec_lt(&self, other: &Self) -> bool {
        *self < *other
    }

    open spec fn spec_hash_key(&self) -> KeyHash {
        KeyHash { value: (spec_unsigned_32(*self) * KEY_HASH_BYTE_3 as int) as u128 }
    }

    proof fn lemma_strict_total_order(a: Self, b: Self, c: Self) {
    }

    fn key_eq(&self, other: &Self) -> (b: bool) {
        *self == *other
    }

    fn key_lt(&self, other: &Self) -> (b: bool) {
        *self < *other
    }

    fn clone_key(&self) -> (k: Self) {
        *self
    }

    fn into_hash_key(&self) -> (h: KeyHash) {
        let unsigned: u128 = if *self >= 0 {
            *self as u128
        } else {
            (*self as i64 + 0x1_0000_0000i64) as u128
        };
        KeyHash { value: unsigned * KEY_HASH_BYTE_3 }
    }
}

impl Key for i64 {
    open spec fn spec_lt(&self, other: &Self) -> bool {
        *self < *other
    }

    open spec fn spec_hash_key(&self) -> KeyHash {
        KeyHash { value: (spec_unsigned_64(*self) * KEY_HASH_BYTE_7 as int) as u128 }
    }

    proof fn lemma_strict_total_order(a: Self, b: Self, c: Self) {
    }

    fn key_eq(&self, other: &Self) -> (b: bool) {
        *self == *other
    }

    fn key_lt(&self, other: &Self) -> (b: bool) {
        *self < *other
    }

    fn clone_key(&self) -> (k: Self) {
        *self
    }

    fn into_hash_key(&self) -> (h: KeyHash) {
        let unsigned: u128 = if *self >= 0 {
            *self as u128
        } else {
            (*self as i128 + 0x1_0000_0000_0000_0000i128) as u128
        };
        KeyHash { value: unsigned * KEY_HASH_BYTE_7 }
    }
}

/// The sixteen bytes of an identifier as one big-endian number: the
/// prefix of the participant, then the entity.
pub open spec fn spec_guid_number(g: GUID) -> int {
    g.guid_prefix.host_id as int * 0x1_0000_0000_0000_0000_0000_0000 + g.guid_prefix.app_id as int
        * 0x1_0000_0000_0000_0000 + g.guid_prefix.instance_id as int * 0x1_0000_0000
        + g.entity_id.value as int
}

/// Different identifiers have different numbers.
pub proof fn lemma_guid_number_injective(a: GUID, b: GUID)
    ensures
        0 <= spec_guid_number(a) <= u128::MAX,
        spec_guid_number(a) == spec_guid_number(b) <==> a == b,
{
}

/// The sixteen bytes of an identifier as one big-endian number.
pub fn guid_number(g: &GUID) -> (n: u128)
    ensures
        n == spec_guid_number(*g),
{
    (g.guid_prefix.host_id as u128) * 0x1_0000_0000_0000_0000_0000_0000u128 + (
    g.guid_prefix.app_id as u128) * 0x1_0000_0000_0000_0000u128 + (
    g.guid_prefix.instance_id as u128) * 0x1_0000_0000u128 + (g.entity_id.value as u128)
}

/// An identifier as a key: identifiers are ordered by their bytes, and the
/// hash of an identifier is its sixteen bytes.
impl Key for GUID {
    open spec fn spec_lt(&self, other: &Self) -> bool {
        spec_guid_number(*self) < spec_guid_number(*other)
    }

    open spec fn spec_hash_key(&self) -> KeyHash {
        KeyHash { value: spec_guid_number(*self) as u128 }
    }

    proof fn lemma_strict_total_order(a: Self, b: Self, c: Self) {
        lemma_guid_number_injective(a, b);
    }

    fn key_eq(&self, other: &Self) -> (b: bool) {
        *self == *other
    }

    fn key_lt(&self, other: &Self) -> (b: bool) {
        guid_number(self) < guid_number(other)
    }

    fn clone_key(&self) -> (k: Self) {
        *self
    }

    fn into_hash_key(&self) -> (h: KeyHash) {
        KeyHash { value: guid_number(self) }
    }
}

} // verus!

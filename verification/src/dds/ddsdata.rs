use crate::dds::traits::key::KeyHash;
use crate::messages::submessages::data::Data;
use crate::messages::submessages::submessage::DATA_FLAG_INLINE_QOS;
use crate::messages::submessages::submessage_elements::parameter::spec_status_info_byte;
use crate::messages::submessages::submessage_elements::parameter_list::ParameterList;
use crate::messages::submessages::submessage::flag_set;
use crate::messages::submessages::submessage::spec_flag_set;
use crate::messages::submessages::submessage::DATA_FLAG_DATA;
use crate::messages::submessages::submessage::DATA_FLAG_KEY;
use crate::messages::submessages::submessage_elements::parameter::Parameter;
use crate::messages::submessages::submessage_elements::serialized_payload::SerializedPayload;
use crate::serialization::byte_order::lemma_pow256_values;
use crate::serialization::byte_order::lemma_value_of_bytes;
use crate::serialization::byte_order::read_u64;
use crate::serialization::byte_order::spec_bytes;
use crate::serialization::byte_order::write_u64;
use crate::serialization::byte_order::spec_value;
use crate::serialization::byte_order::Endianness;
use crate::structure::cache_change::ChangeKind;
use crate::structure::guid::EntityId;
use crate::structure::parameter_id::ParameterId;
use crate::structure::sequence_number::SequenceNumber;
use crate::structure::parameter_id::PID_KEY_HASH;
use crate::structure::parameter_id::PID_STATUS_INFO;
use vstd::prelude::*;

verus! {

/// What a change carries: a serialized sample, or the serialized key or
/// the key hash of an instance whose lifecycle changed.
#[derive(Debug, Clone)]
pub enum DDSData {
    Data { serialized_payload: SerializedPayload },
    DisposeByKey { change_kind: ChangeKind, key: SerializedPayload },
    DisposeByKeyHash { change_kind: ChangeKind, key_hash: KeyHash },
}

/// The flags of the first status-info parameter among the first `n`
/// parameters: the last of its four bytes.
pub open spec fn spec_status_flags(params: Seq<Parameter>, n: int) -> Option<u8>
    decreases n,
{
    if n <= 0 {
        None
    } else {
        match spec_status_flags(params, n - 1) {
            Some(f) => Some(f),
            None => if params[n - 1].parameter_id.value == PID_STATUS_INFO && params[n
                - 1].value@.len() >= 4 {
                Some(params[n - 1].value@[3])
            } else {
                None
            },
        }
    }
}

/// The key hash of the first key-hash parameter among the first `n`
/// parameters: its sixteen bytes as one big-endian number.
pub open spec fn spec_key_hash_of(params: Seq<Parameter>, n: int) -> Option<KeyHash>
    decreases n,
{
    if n <= 0 {
        None
    } else {
        match spec_key_hash_of(params, n - 1) {
            Some(h) => Some(h),
            None => if params[n - 1].parameter_id.value == PID_KEY_HASH && params[n
                - 1].value@.len() >= 16 {
                Some(
                    KeyHash {
                        value: (spec_value(params[n - 1].value@.subrange(0, 8), Endianness::BigEndian)
                            * 0x1_0000_0000_0000_0000 + spec_value(
                            params[n - 1].value@.subrange(8, 16),
                            Endianness::BigEndian,
                        )) as u128,
                    },
                )
            } else {
                None
            },
        }
    }
}

/// What a change without a value does to its instance: it unregisters it
/// where the status flags say so and do not say that it is disposed, and
/// disposes of it else.
pub open spec fn spec_lifecycle_kind(status: Option<u8>) -> ChangeKind {
    match status {
        Some(f) => if f % 2 == 0 && (f / 2) % 2 == 1 {
            ChangeKind::NotAliveUnregistered
        } else {
            ChangeKind::NotAliveDisposed
        },
        None => ChangeKind::NotAliveDisposed,
    }
}

/// The inline parameters of a data submessage; none where it has no list.
pub open spec fn spec_inline_parameters(data: Data) -> Seq<Parameter> {
    match data.inline_qos {
        Some(list) => list.parameters@,
        None => Seq::empty(),
    }
}

/// What a data submessage with the flags `flags` carries: its payload as
/// a value where the flags announce a value, its payload as a key where
/// they announce a key, the key hash of its inline parameters where
/// there is no payload, and nothing where there is neither.
pub open spec fn spec_carried(data: Data, flags: u8) -> Option<DDSData> {
    let params = spec_inline_parameters(data);
    let kind = spec_lifecycle_kind(spec_status_flags(params, params.len() as int));
    match data.serialized_payload {
        Some(payload) => if spec_flag_set(flags, DATA_FLAG_DATA) {
            Some(DDSData::Data { serialized_payload: payload })
        } else if spec_flag_set(flags, DATA_FLAG_KEY) {
            Some(DDSData::DisposeByKey { change_kind: kind, key: payload })
        } else {
            None
        },
        None => match spec_key_hash_of(params, params.len() as int) {
            Some(key_hash) => Some(DDSData::DisposeByKeyHash { change_kind: kind, key_hash }),
            None => None,
        },
    }
}

/// The flags of the first status-info parameter of a list.
pub fn status_flags(params: &Vec<Parameter>) -> (r: Option<u8>)
    ensures
        r == spec_status_flags(params@, params@.len() as int),
{
    let mut i: usize = 0;
    while i < params.len()
        invariant
            i <= params@.len(),
            spec_status_flags(params@, i as int) is None,
        decreases params@.len() - i,
    {
        if params[i].parameter_id.value == PID_STATUS_INFO && params[i].value.len() >= 4 {
            let f = params[i].value[3];
            proof {
                assert(spec_status_flags(params@, i + 1) == Some(f));
                lemma_status_flags_stay(params@, i + 1, params@.len() as int);
            }
            return Some(f);
        }
        i += 1;
    }
    None
}

/// The key hash of the first key-hash parameter of a list.
pub fn key_hash_of(params: &Vec<Parameter>) -> (r: Option<KeyHash>)
    ensures
        r == spec_key_hash_of(params@, params@.len() as int),
{
    let mut i: usize = 0;
    while i < params.len()
        invariant
            i <= params@.len(),
            spec_key_hash_of(params@, i as int) is None,
        decreases params@.len() - i,
    {
        if params[i].parameter_id.value == PID_KEY_HASH && params[i].value.len() >= 16 {
            let bytes = params[i].value.as_slice();
            let first = vstd::slice::slice_subrange(bytes, 0, 8);
            let second = vstd::slice::slice_subrange(bytes, 8, 16);
            assert(first@.subrange(0, 8) =~= first@);
            assert(second@.subrange(0, 8) =~= second@);
            let high: u64 = read_u64(first, Endianness::BigEndian);
            let low: u64 = read_u64(second, Endianness::BigEndian);
            let hash = KeyHash { value: (high as u128) * 0x1_0000_0000_0000_0000u128 + (low as u128) };
            proof {
                assert(spec_key_hash_of(params@, i + 1) == Some(hash));
                lemma_key_hash_stays(params@, i + 1, params@.len() as int);
            }
            return Some(hash);
        }
        i += 1;
    }
    None
}

/// The first status-info parameter stays the first where more
/// parameters follow.
proof fn lemma_status_flags_stay(params: Seq<Parameter>, n: int, m: int)
    requires
        0 <= n <= m,
        spec_status_flags(params, n) is Some,
    ensures
        spec_status_flags(params, m) == spec_status_flags(params, n),
    decreases m - n,
{
    if n < m {
        lemma_status_flags_stay(params, n, m - 1);
    }
}

/// The first key-hash parameter stays the first where more parameters
/// follow.
proof fn lemma_key_hash_stays(params: Seq<Parameter>, n: int, m: int)
    requires
        0 <= n <= m,
        spec_key_hash_of(params, n) is Some,
    ensures
        spec_key_hash_of(params, m) == spec_key_hash_of(params, n),
    decreases m - n,
{
    if n < m {
        lemma_key_hash_stays(params, n, m - 1);
    }
}

impl DDSData {
    /// The payload of a new sample.
    pub fn new(serialized_payload: SerializedPayload) -> (d: DDSData)
        ensures
            d == (DDSData::Data { serialized_payload }),
    {
        DDSData::Data { serialized_payload }
    }

    /// The payload that reports a change in the lifecycle of the instance
    /// with the serialized key `key`.
    pub fn new_disposed_by_key(change_kind: ChangeKind, key: SerializedPayload) -> (d: DDSData)
        ensures
            d == (DDSData::DisposeByKey { change_kind, key }),
    {
        DDSData::DisposeByKey { change_kind, key }
    }

    /// The payload that reports a change in the lifecycle of the instance
    /// with the key hash `key_hash`.
    pub fn new_disposed_by_key_hash(change_kind: ChangeKind, key_hash: KeyHash) -> (d: DDSData)
        ensures
            d == (DDSData::DisposeByKeyHash { change_kind, key_hash }),
    {
        DDSData::DisposeByKeyHash { change_kind, key_hash }
    }

    /// Whether two payloads carry the same: the same bytes in the same
    /// encoding, or the same kind of change for the same key.
    pub open spec fn spec_same(&self, other: &DDSData) -> bool {
        match (*self, *other) {
            (
                DDSData::Data { serialized_payload: a },
                DDSData::Data { serialized_payload: b },
            ) => a.spec_view() == b.spec_view(),
            (
                DDSData::DisposeByKey { change_kind: k, key: a },
                DDSData::DisposeByKey { change_kind: l, key: b },
            ) => k == l && a.spec_view() == b.spec_view(),
            (
                DDSData::DisposeByKeyHash { change_kind: k, key_hash: a },
                DDSData::DisposeByKeyHash { change_kind: l, key_hash: b },
            ) => k == l && a == b,
            _ => false,
        }
    }

    /// Whether two payloads carry the same.
    pub fn same_as(&self, other: &DDSData) -> (same: bool)
        ensures
            same == self.spec_same(other),
    {
        match (self, other) {
            (
                DDSData::Data { serialized_payload: a },
                DDSData::Data { serialized_payload: b },
            ) => a.same_as(b),
            (
                DDSData::DisposeByKey { change_kind: k, key: a },
                DDSData::DisposeByKey { change_kind: l, key: b },
            ) => *k == *l && a.same_as(b),
            (
                DDSData::DisposeByKeyHash { change_kind: k, key_hash: a },
                DDSData::DisposeByKeyHash { change_kind: l, key_hash: b },
            ) => *k == *l && a.value == b.value,
            _ => false,
        }
    }

    /// A payload that carries the same, and shares its bytes with this
    /// one.
    pub fn duplicate(&self) -> (copy: DDSData)
        ensures
            copy.spec_same(self),
    {
        match self {
            DDSData::Data { serialized_payload } => DDSData::Data {
                serialized_payload: serialized_payload.duplicate(),
            },
            DDSData::DisposeByKey { change_kind, key } => DDSData::DisposeByKey {
                change_kind: *change_kind,
                key: key.duplicate(),
            },
            DDSData::DisposeByKeyHash { change_kind, key_hash } => DDSData::DisposeByKeyHash {
                change_kind: *change_kind,
                key_hash: *key_hash,
            },
        }
    }

    /// What a data submessage that came with the flags `flags` carries,
    /// if it carries anything. The payload shares its bytes with the
    /// submessage.
    pub fn from_data(data: &Data, flags: u8) -> (r: Option<DDSData>)
        ensures
            r is Some == spec_carried(*data, flags) is Some,
            r matches Some(carried) ==> carried.spec_same(&spec_carried(*data, flags)->0),
    {
        let status = match &data.inline_qos {
            Some(list) => status_flags(&list.parameters),
            None => None,
        };
        let change_kind = match status {
            Some(f) => if f % 2 == 0 && (f / 2) % 2 == 1 {
                ChangeKind::NotAliveUnregistered
            } else {
                ChangeKind::NotAliveDisposed
            },
            None => ChangeKind::NotAliveDisposed,
        };
        match &data.serialized_payload {
            Some(payload) => {
                if flag_set(flags, DATA_FLAG_DATA) {
                    Some(DDSData::Data { serialized_payload: payload.duplicate() })
                } else if flag_set(flags, DATA_FLAG_KEY) {
                    Some(DDSData::DisposeByKey { change_kind, key: payload.duplicate() })
                } else {
                    None
                }
            },
            None => {
                let hash = match &data.inline_qos {
                    Some(list) => key_hash_of(&list.parameters),
                    None => None,
                };
                match hash {
                    Some(key_hash) => Some(DDSData::DisposeByKeyHash { change_kind, key_hash }),
                    None => None,
                }
            },
        }
    }

    /// The data submessage that carries this change of the writer
    /// `writer_id` under the number `writer_sn` to the reader `reader_id`,
    /// and the flags of the submessage beside the flag of its byte order.
    ///
    /// A value travels as payload under the flag for data. A key travels
    /// as payload under the flag for a key, a key hash as an inline
    /// parameter; both with the status of the instance as an inline
    /// parameter. The payload shares its bytes with the change.
    pub fn to_data(&self, reader_id: EntityId, writer_id: EntityId, writer_sn: SequenceNumber) -> (r: (
        Data,
        u8,
    ))
        ensures
            r.0.reader_id == reader_id,
            r.0.writer_id == writer_id,
            r.0.writer_sn == writer_sn,
            r.0.spec_fits(),
            r.1 == match *self {
                DDSData::Data { .. } => DATA_FLAG_DATA,
                DDSData::DisposeByKey { .. } => (DATA_FLAG_INLINE_QOS + DATA_FLAG_KEY) as u8,
                DDSData::DisposeByKeyHash { .. } => DATA_FLAG_INLINE_QOS,
            },
            r.0.inline_qos is Some == !(*self is Data),
            r.0.serialized_payload is Some == !(*self is DisposeByKeyHash),
            (*self is Data || self.spec_change_kind() != ChangeKind::Alive) ==> spec_carried(
                r.0,
                r.1,
            ) is Some && spec_carried(r.0, r.1)->0.spec_same(self),
    {
        match self {
            DDSData::Data { serialized_payload } => {
                let data = Data {
                    reader_id,
                    writer_id,
                    writer_sn,
                    inline_qos: None,
                    serialized_payload: Some(serialized_payload.duplicate()),
                };
                (data, DATA_FLAG_DATA)
            },
            DDSData::DisposeByKey { change_kind, key } => {
                let status = Parameter::create_pid_status_info_parameter(
                    matches!(change_kind, ChangeKind::NotAliveDisposed),
                    matches!(change_kind, ChangeKind::NotAliveUnregistered),
                    false,
                );
                let mut parameters: Vec<Parameter> = Vec::new();
                parameters.push(status);
                proof {
                    reveal_with_fuel(spec_status_flags, 2);
                    assert(parameters@.len() == 1);
                    assert(spec_status_flags(parameters@, 1) == Some(status.value@[3]));
                }
                let data = Data {
                    reader_id,
                    writer_id,
                    writer_sn,
                    inline_qos: Some(ParameterList { parameters }),
                    serialized_payload: Some(key.duplicate()),
                };
                (data, DATA_FLAG_INLINE_QOS + DATA_FLAG_KEY)
            },
            DDSData::DisposeByKeyHash { change_kind, key_hash } => {
                let status = Parameter::create_pid_status_info_parameter(
                    matches!(change_kind, ChangeKind::NotAliveDisposed),
                    matches!(change_kind, ChangeKind::NotAliveUnregistered),
                    false,
                );
                let high: u64 = (key_hash.value / 0x1_0000_0000_0000_0000u128) as u64;
                let low: u64 = (key_hash.value % 0x1_0000_0000_0000_0000u128) as u64;
                let mut value: Vec<u8> = Vec::new();
                write_u64(&mut value, high, Endianness::BigEndian);
                write_u64(&mut value, low, Endianness::BigEndian);
                proof {
                    lemma_pow256_values();
                    lemma_value_of_bytes(high as nat, 8, Endianness::BigEndian);
                    lemma_value_of_bytes(low as nat, 8, Endianness::BigEndian);
                    assert(value@.subrange(0, 8) =~= spec_bytes(high as nat, 8, Endianness::BigEndian));
                    assert(value@.subrange(8, 16) =~= spec_bytes(low as nat, 8, Endianness::BigEndian));
                }
                let hash = Parameter { parameter_id: ParameterId { value: PID_KEY_HASH }, value };
                let mut parameters: Vec<Parameter> = Vec::new();
                parameters.push(hash);
                parameters.push(status);
                proof {
                    reveal_with_fuel(spec_status_flags, 3);
                    reveal_with_fuel(spec_key_hash_of, 3);
                    assert(parameters@.len() == 2);
                    assert(spec_status_flags(parameters@, 2) == Some(status.value@[3]));
                    assert(spec_key_hash_of(parameters@, 2) == Some(*key_hash));
                }
                let data = Data {
                    reader_id,
                    writer_id,
                    writer_sn,
                    inline_qos: Some(ParameterList { parameters }),
                    serialized_payload: None,
                };
                (data, DATA_FLAG_INLINE_QOS)
            },
        }
    }

    /// The kind of change: alive for a sample, else the kind stated.
    pub open spec fn spec_change_kind(&self) -> ChangeKind {
        match self {
            DDSData::Data { .. } => ChangeKind::Alive,
            DDSData::DisposeByKey { change_kind, .. } => *change_kind,
            DDSData::DisposeByKeyHash { change_kind, .. } => *change_kind,
        }
    }

    /// The kind of change that the payload reports.
    #[verifier::when_used_as_spec(spec_change_kind)]
    pub fn change_kind(&self) -> (k: ChangeKind)
        ensures
            k == self.spec_change_kind(),
    {
        match self {
            DDSData::Data { .. } => ChangeKind::Alive,
            DDSData::DisposeByKey { change_kind, .. } => *change_kind,
            DDSData::DisposeByKeyHash { change_kind, .. } => *change_kind,
        }
    }
}

} // verus!

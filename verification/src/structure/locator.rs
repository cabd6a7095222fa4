use vstd::prelude::*;

verus! {

/// Kind tag of an invalid locator.
pub const LOCATOR_KIND_INVALID: i32 = -1;

/// Kind tag of a reserved locator.
pub const LOCATOR_KIND_RESERVED: i32 = 0;

/// Kind tag of a UDP over IPv4 locator.
pub const LOCATOR_KIND_UDPV4: i32 = 1;

/// Kind tag of a UDP over IPv6 locator.
pub const LOCATOR_KIND_UDPV6: i32 = 2;

/// A network address at which an endpoint can be reached. The address is
/// the sixteen-byte field of the wire format held as one big-endian number;
/// an IPv4 address occupies its last four bytes.
#[derive(Clone, Copy, Debug, PartialEq, Eq, Structural, Hash, PartialOrd, Ord)]
pub struct Locator {
    pub kind: i32,
    pub port: u32,
    pub address: u128,
}

impl Locator {
    pub open spec fn spec_invalid() -> Locator {
        Locator { kind: LOCATOR_KIND_INVALID, port: 0, address: 0 }
    }

    /// The locator that names no address.
    #[verifier::when_used_as_spec(spec_invalid)]
    pub fn invalid() -> (l: Locator)
        ensures
            l == Locator::spec_invalid(),
    {
        Locator { kind: LOCATOR_KIND_INVALID, port: 0, address: 0 }
    }

    /// The value of the IPv4 address `a.b.c.d` as the address field holds it.
    pub open spec fn spec_ipv4_address(a: u8, b: u8, c: u8, d: u8) -> u128 {
        (a as int * 0x100_0000 + b as int * 0x1_0000 + c as int * 0x100 + d as int) as u128
    }

    /// The UDP locator of port `port` at the IPv4 address `a.b.c.d`.
    pub fn udpv4(a: u8, b: u8, c: u8, d: u8, port: u16) -> (l: Locator)
        ensures
            l.kind == LOCATOR_KIND_UDPV4,
            l.port == port as u32,
            l.address == Locator::spec_ipv4_address(a, b, c, d),
    {
        let address: u128 = (a as u128) * 0x100_0000u128 + (b as u128) * 0x1_0000u128 + (c as u128)
            * 0x100u128 + (d as u128);
        Locator { kind: LOCATOR_KIND_UDPV4, port: port as u32, address }
    }
}

/// A list of locators, in the order of preference.
pub type LocatorList = Vec<Locator>;

/// A copy of a locator list.
pub fn copy_locators(list: &LocatorList) -> (copy: LocatorList)
    ensures
        copy@ == list@,
{
    let mut copy: Vec<Locator> = Vec::new();
    let mut i: usize = 0;
    while i < list.len()
        invariant
            i <= list.len(),
            copy@ == list@.subrange(0, i as int),
        decreases list.len() - i,
    {
        copy.push(list[i]);
        assert(list@.subrange(0, i as int).push(list@[i as int]) == list@.subrange(
            0,
            i as int + 1,
        ));
        i += 1;
    }
    assert(list@.subrange(0, list@.len() as int) == list@);
    copy
}

} // verus!

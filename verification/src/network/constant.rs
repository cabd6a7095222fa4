use vstd::prelude::*;

verus! {

/// Port base of the protocol.
pub const PB: u32 = 7400;

/// Port gain of a domain.
pub const DG: u32 = 250;

/// Port gain of a participant.
pub const PG: u32 = 2;

/// Offset of the multicast port of discovery.
pub const D0: u32 = 0;

/// Offset of the unicast port of discovery.
pub const D1: u32 = 10;

/// Offset of the multicast port of user traffic.
pub const D2: u32 = 1;

/// Offset of the unicast port of user traffic.
pub const D3: u32 = 11;

/// The port `PB + DG * domain_id + offset + PG * participant_id`.
pub open spec fn spec_port(domain_id: u16, participant_id: u16, offset: u32) -> int {
    PB as int + DG as int * domain_id as int + offset as int + PG as int * participant_id as int
}

/// The port by the formula of the protocol, where it is a port number.
pub fn well_known_port(domain_id: u16, participant_id: u16, offset: u32) -> (port: Option<u16>)
    requires
        offset <= 11,
    ensures
        match port {
            Some(p) => p as int == spec_port(domain_id, participant_id, offset),
            None => spec_port(domain_id, participant_id, offset) > 0xffff,
        },
{
    let port: u32 = PB + DG * (domain_id as u32) + offset + PG * (participant_id as u32);
    if port > 0xffff {
        None
    } else {
        Some(port as u16)
    }
}

/// The multicast port of discovery in a domain.
pub fn get_spdp_well_known_multicast_port(domain_id: u16) -> (port: Option<u16>)
    ensures
        match port {
            Some(p) => p as int == spec_port(domain_id, 0, D0),
            None => spec_port(domain_id, 0, D0) > 0xffff,
        },
{
    well_known_port(domain_id, 0, D0)
}

/// The unicast port of discovery of a participant in a domain.
pub fn get_spdp_well_known_unicast_port(domain_id: u16, participant_id: u16) -> (port: Option<u16>)
    ensures
        match port {
            Some(p) => p as int == spec_port(domain_id, participant_id, D1),
            None => spec_port(domain_id, participant_id, D1) > 0xffff,
        },
{
    well_known_port(domain_id, participant_id, D1)
}

/// The multicast port of user traffic in a domain.
pub fn get_user_traffic_multicast_port(domain_id: u16) -> (port: Option<u16>)
    ensures
        match port {
            Some(p) => p as int == spec_port(domain_id, 0, D2),
            None => spec_port(domain_id, 0, D2) > 0xffff,
        },
{
    well_known_port(domain_id, 0, D2)
}

/// The unicast port of user traffic of a participant in a domain.
pub fn get_user_traffic_unicast_port(domain_id: u16, participant_id: u16) -> (port: Option<u16>)
    ensures
        match port {
            Some(p) => p as int == spec_port(domain_id, participant_id, D3),
            None => spec_port(domain_id, participant_id, D3) > 0xffff,
        },
{
    well_known_port(domain_id, participant_id, D3)
}

} // verus!

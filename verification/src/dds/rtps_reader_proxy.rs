use crate::dds::qos::policy::Reliability;
use crate::discovery::data_types::topic_data::DiscoveredReaderData;
use crate::structure::guid::GUID;
use crate::structure::locator::copy_locators;
use crate::structure::locator::LocatorList;
use vstd::prelude::*;

verus! {

/// What a writer records of one matched reader: where to reach it, whether
/// it is reliable, and how far it has acknowledged the writer's history.
///
/// The sequence numbers not yet acknowledged are those above
/// `highest_acked` up to the last number that the writer has produced.
#[derive(Debug, Clone)]
pub struct RtpsReaderProxy {
    pub remote_reader_guid: GUID,
    pub unicast_locator_list: LocatorList,
    pub multicast_locator_list: LocatorList,
    pub expects_in_line_qos: bool,
    /// Whether the reader takes part in the reliable protocol.
    pub is_reliable: bool,
    /// All sequence numbers up to this one are acknowledged.
    pub highest_acked: i64,
    /// The count of the last acknowledgement accepted from the reader.
    pub last_acknack_count: Option<i32>,
}

/// The locators to use for a reader: its own, or the defaults of its
/// participant where it states none.
pub open spec fn spec_locators_or_default(own: Seq<crate::structure::locator::Locator>, default: Seq<
    crate::structure::locator::Locator,
>) -> Seq<crate::structure::locator::Locator> {
    if own.len() > 0 {
        own
    } else {
        default
    }
}

impl RtpsReaderProxy {
    /// The proxy of the reader `remote_reader_guid` without locators, at the
    /// start of the history.
    pub fn new(remote_reader_guid: GUID, is_reliable: bool) -> (p: RtpsReaderProxy)
        ensures
            p.remote_reader_guid == remote_reader_guid,
            p.is_reliable == is_reliable,
            p.highest_acked == 0,
            p.last_acknack_count is None,
            !p.expects_in_line_qos,
            p.unicast_locator_list@.len() == 0,
            p.multicast_locator_list@.len() == 0,
    {
        RtpsReaderProxy {
            remote_reader_guid,
            unicast_locator_list: Vec::new(),
            multicast_locator_list: Vec::new(),
            expects_in_line_qos: false,
            is_reliable,
            highest_acked: 0,
            last_acknack_count: None,
        }
    }

    /// The proxy of a discovered reader, at the start of the history. The
    /// reader is reliable where its record asks for reliability. Where the
    /// record states no locators, the defaults are used.
    pub fn from_discovered_reader_data(
        discovered_reader_data: &DiscoveredReaderData,
        default_unicast_locators: &LocatorList,
        default_multicast_locators: &LocatorList,
    ) -> (p: RtpsReaderProxy)
        ensures
            p.remote_reader_guid == discovered_reader_data.reader_proxy.remote_reader_guid,
            p.expects_in_line_qos == discovered_reader_data.reader_proxy.expects_inline_qos,
            p.unicast_locator_list@ == spec_locators_or_default(
                discovered_reader_data.reader_proxy.unicast_locator_list@,
                default_unicast_locators@,
            ),
            p.multicast_locator_list@ == spec_locators_or_default(
                discovered_reader_data.reader_proxy.multicast_locator_list@,
                default_multicast_locators@,
            ),
            p.is_reliable == (discovered_reader_data.subscription_topic_data.reliability matches Some(
                Reliability::Reliable { .. },
            )),
            p.highest_acked == 0,
            p.last_acknack_count is None,
    {
        let unicast_locator_list = if discovered_reader_data.reader_proxy.unicast_locator_list.len()
            > 0 {
            copy_locators(&discovered_reader_data.reader_proxy.unicast_locator_list)
        } else {
            copy_locators(default_unicast_locators)
        };
        let multicast_locator_list =
            if discovered_reader_data.reader_proxy.multicast_locator_list.len() > 0 {
            copy_locators(&discovered_reader_data.reader_proxy.multicast_locator_list)
        } else {
            copy_locators(default_multicast_locators)
        };
        let is_reliable = match discovered_reader_data.subscription_topic_data.reliability {
            Some(Reliability::Reliable { .. }) => true,
            _ => false,
        };
        RtpsReaderProxy {
            remote_reader_guid: discovered_reader_data.reader_proxy.remote_reader_guid,
            unicast_locator_list,
            multicast_locator_list,
            expects_in_line_qos: discovered_reader_data.reader_proxy.expects_inline_qos,
            is_reliable,
            highest_acked: 0,
            last_acknack_count: None,
        }
    }
}

} // verus!

//! The records that discovery exchanges.

pub mod spdp_participant_data;
pub mod topic_data;

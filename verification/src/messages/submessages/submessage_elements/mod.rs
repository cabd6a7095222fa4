//! The building blocks of submessages.

pub mod parameter;
pub mod parameter_list;
pub mod sequence_number_set;
pub mod serialized_payload;

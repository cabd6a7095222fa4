//! The data-centric layer: samples, instances, quality of service and the
//! per-endpoint sample cache.

pub mod datasample;
pub mod datasample_cache;
pub mod datasample_cache_laws;
pub mod ddsdata;
pub mod no_key;
pub mod qos;
pub mod readcondition;
pub mod reader;
pub mod reliability_laws;
pub mod rtps_reader_proxy;
pub mod rtps_writer_proxy;
pub mod sampleinfo;
pub mod topic;
pub mod traits;
pub mod values;
pub mod with_key;
pub mod writer;

//! Access to keyed topics.

pub mod datareader;
pub mod datawriter;

//! Values of the network layer that the protocol fixes.

pub mod constant;

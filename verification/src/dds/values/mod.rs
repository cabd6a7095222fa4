//! Values that the operations of the application surface return.

pub mod result;

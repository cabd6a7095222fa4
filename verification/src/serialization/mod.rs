//! Wire encodings: byte order, the compact encoding of user data, and the
//! tagged encoding of discovery records.

pub mod builtin_data_encoding;
pub mod builtin_data_serializer;
pub mod byte_order;
pub mod cdr_deserializer;
pub mod cdr_laws;
pub mod cdr_serializer;
pub mod error;

//! The escape hatch of a serializer bridge for "magic" values: value types
//! whose real representation is one or two machine words, together with a
//! reference-counted, zero-copy window onto a byte region owned by a foreign
//! runtime.

pub mod field;
pub mod zero_copy_buf;

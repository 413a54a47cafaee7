//! Scalar-function components that convert between textual UUIDs and their
//! canonical 16-byte binary form, and extract the RFC 4122 version nibble,
//! over nullable columnar batches or single scalar values.

pub mod codec;
pub mod laws;
pub mod model;
pub mod string_to_uuid;
pub mod uuid_to_string;
pub mod uuid_version;

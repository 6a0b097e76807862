//! Helpers shared by the record types.
pub mod bytes;
pub mod primitive;

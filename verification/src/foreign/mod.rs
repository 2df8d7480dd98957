//! What the crate takes from other crates, one module for each source.
//!
//! Every item here is believed, not proved: its contract restates what the foreign
//! function's source or documentation shows.

pub mod bytes;
pub mod digest;
pub mod header;
pub mod json;
pub mod msgpack;
pub mod share;
pub mod store;
pub mod text;

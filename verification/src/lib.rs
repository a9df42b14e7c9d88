//! Client-side codec and session logic for a BFRuntime-controlled switch.
//!
//! The crate turns symbolic table requests into bit-exact wire entities and
//! wire responses back into symbolic results, driven by the schema that the
//! switch publishes. Transport and file access live outside of it.

pub mod error;
pub mod codec;
pub mod text;
pub mod seq_ext;
pub mod bfrt;
pub mod protos;
pub mod table;
pub mod str_map;
pub mod util;
pub mod connection;
pub mod register;

//! Plain-data models of the protocol message shapes that the bridge carries.
//!
//! These mirror the collector protocol's schema as ordinary owned values:
//! the bridge treats every payload as opaque — it never validates or
//! interprets record contents — so each message is modelled field by field
//! with plain integers, strings, byte vectors and nested records. Byte-level
//! wire encoding and decoding belong to the embedding transport layer, not
//! to this crate.

pub mod collector;
pub mod common;
pub mod experimental;
pub mod logs;
pub mod metrics;
pub mod resource;
pub mod trace;

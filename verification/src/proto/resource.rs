//! The entity that produced a batch of telemetry records.

use vstd::prelude::*;

use crate::proto::common::KeyValue;

verus! {

/// The resource — a service, host or process — that a batch of telemetry
/// records originates from, described by a set of attributes.
pub struct Resource {
    /// Attributes describing the resource
    pub attributes: Vec<KeyValue>,
    /// How many attributes were dropped before export
    pub dropped_attributes_count: u32,
}

} // verus!

//! Trace signal record shapes.

use vstd::prelude::*;

use crate::proto::common::{InstrumentationLibrary, KeyValue};
use crate::proto::resource::Resource;

verus! {

/// A collection of [`InstrumentationLibrarySpans`] from one [`Resource`].
pub struct ResourceSpans {
    /// The resource the spans originate from; unset when unknown
    pub resource: Option<Resource>,
    /// The per-library batches of spans
    pub instrumentation_library_spans: Vec<InstrumentationLibrarySpans>,
}

/// A collection of spans produced by one instrumentation library.
pub struct InstrumentationLibrarySpans {
    /// The producing library; unset means an unknown library
    pub instrumentation_library: Option<InstrumentationLibrary>,
    /// The spans themselves
    pub spans: Vec<Span>,
}

/// A single operation within a trace.
pub struct Span {
    /// 16-byte trace identifier shared by all spans of one trace
    pub trace_id: Vec<u8>,
    /// 8-byte identifier of this span, unique within its trace
    pub span_id: Vec<u8>,
    /// Identifier of the parent span; empty for a root span
    pub parent_span_id: Vec<u8>,
    /// A description of the span's operation
    pub name: String,
    /// The relationship between the span and its parents and children, as a
    /// wire value
    pub kind: i32,
    /// When the span started, in nanoseconds since the UNIX epoch
    pub start_time_unix_nano: u64,
    /// When the span ended, in nanoseconds since the UNIX epoch
    pub end_time_unix_nano: u64,
    /// Attributes describing the span
    pub attributes: Vec<KeyValue>,
    /// How many attributes were dropped before export
    pub dropped_attributes_count: u32,
    /// The final status of the span, if set
    pub status: Option<SpanStatus>,
}

/// The final status of a [`Span`].
pub struct SpanStatus {
    /// The status code, as a wire value
    pub code: i32,
    /// A developer-facing description of the status
    pub message: String,
}

} // verus!

//! The unary export call's request and response shapes, one pair per signal
//! kind, together with the optional "partial success" record each response
//! may carry.
//!
//! An absent partial-success record means the export was accepted in full
//! with no further context — the behaviour of protocol revisions that
//! predate partial success, preserved for backward compatibility.

use vstd::prelude::*;

use crate::proto::logs::ResourceLogs;
use crate::proto::metrics::ResourceMetrics;
use crate::proto::trace::ResourceSpans;

verus! {

/// A logs export request: a batch of resource-scoped log records.
pub struct ExportLogsServiceRequest {
    /// The resource-scoped log records; intermediary nodes may batch records
    /// of several origins into one request
    pub resource_logs: Vec<ResourceLogs>,
}

/// The response to a logs export request.
#[derive(Debug)]
pub struct ExportLogsServiceResponse {
    /// How the export was received; unset means full, uncontextualised
    /// acceptance
    pub partial_success: Option<ExportLogsPartialSuccess>,
}

/// The partial-success record of a logs export response.
#[derive(Debug)]
pub struct ExportLogsPartialSuccess {
    /// How many log records the consumer rejected
    pub rejected_log_records: i64,
    /// A message giving context for the rejection; empty when there is none
    pub error_message: String,
}

/// A metrics export request: a batch of resource-scoped metrics.
pub struct ExportMetricsServiceRequest {
    /// The resource-scoped metrics; intermediary nodes may batch records of
    /// several origins into one request
    pub resource_metrics: Vec<ResourceMetrics>,
}

/// The response to a metrics export request.
#[derive(Debug)]
pub struct ExportMetricsServiceResponse {
    /// How the export was received; unset means full, uncontextualised
    /// acceptance
    pub partial_success: Option<ExportMetricsPartialSuccess>,
}

/// The partial-success record of a metrics export response.
#[derive(Debug)]
pub struct ExportMetricsPartialSuccess {
    /// How many data points the consumer rejected
    pub rejected_data_points: i64,
    /// A message giving context for the rejection; empty when there is none
    pub error_message: String,
}

/// A trace export request: a batch of resource-scoped spans.
pub struct ExportTraceServiceRequest {
    /// The resource-scoped spans; intermediary nodes may batch records of
    /// several origins into one request
    pub resource_spans: Vec<ResourceSpans>,
}

/// The response to a trace export request.
#[derive(Debug)]
pub struct ExportTraceServiceResponse {
    /// How the export was received; unset means full, uncontextualised
    /// acceptance
    pub partial_success: Option<ExportTracePartialSuccess>,
}

/// The partial-success record of a trace export response.
#[derive(Debug)]
pub struct ExportTracePartialSuccess {
    /// How many spans the consumer rejected
    pub rejected_spans: i64,
    /// A message giving context for the rejection; empty when there is none
    pub error_message: String,
}

} // verus!

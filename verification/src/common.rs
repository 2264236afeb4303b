//! The unified, fallible acknowledgement record.
//!
//! Early collector protocol responses were infallible; later revisions carry
//! an optional "partial success" record reporting how many records a
//! downstream consumer rejected, together with an error message. This module
//! standardises the handling of that record: every per-signal wire response
//! translates into one [`FallibleOtelResponse`], with only the counter of the
//! answering signal kind populated.

use vstd::prelude::*;

use crate::proto::collector::{
    ExportLogsServiceResponse, ExportMetricsServiceResponse, ExportTraceServiceResponse,
};

verus! {

/// A uniform view of a per-signal export response: one rejection counter per
/// signal kind, and a possibly empty error message. Exactly one of the three
/// counters is ever populated from any single wire response; the other two
/// default to zero.
pub struct FallibleOtelResponse {
    /// Possibly non-zero count of rejected log records
    pub rejected_logs: i64,
    /// Possibly non-zero count of rejected metrics records
    pub rejected_metrics: i64,
    /// Possibly non-zero count of rejected trace records
    pub rejected_spans: i64,
    /// Possibly empty error message
    pub error_message: String,
}

impl FallibleOtelResponse {
    /// Create a new FallibleOtelResponse from its four components.
    pub fn new(
        rejected_logs: i64,
        rejected_metrics: i64,
        rejected_spans: i64,
        error_message: String,
    ) -> (r: Self)
        ensures
            r.rejected_logs == rejected_logs,
            r.rejected_metrics == rejected_metrics,
            r.rejected_spans == rejected_spans,
            r.error_message == error_message,
    {
        Self { rejected_logs, rejected_metrics, rejected_spans, error_message }
    }

    /// Whether the response reports no rejection at all: true exactly when
    /// all three counters equal zero. Any non-zero counter — including a
    /// negative one — makes this false. The error message plays no part in
    /// the check.
    pub fn is_ok(&self) -> (r: bool)
        ensures
            r <==> (self.rejected_logs == 0 && self.rejected_metrics == 0
                && self.rejected_spans == 0),
    {
        self.rejected_logs == 0 && self.rejected_metrics == 0 && self.rejected_spans == 0
    }

    /// Translates a logs export response: the partial-success record's
    /// rejection count lands in the logs counter and its message is carried
    /// over; an absent record means full acceptance — all counters zero, an
    /// empty message. The other two counters are never populated from a logs
    /// response.
    pub fn from_logs_response(response: ExportLogsServiceResponse) -> (r: Self)
        ensures
            r.rejected_metrics == 0,
            r.rejected_spans == 0,
            response.partial_success matches Some(d) ==> r.rejected_logs == d.rejected_log_records
                && r.error_message == d.error_message,
            response.partial_success is None ==> r.rejected_logs == 0 && r.error_message@
                == Seq::<char>::empty(),
    {
        match response.partial_success {
            Some(disposition) => Self::new(
                disposition.rejected_log_records,
                0,
                0,
                disposition.error_message,
            ),
            None => Self::new(0, 0, 0, String::new()),
        }
    }

    /// Translates a metrics export response: the partial-success record's
    /// rejection count lands in the metrics counter and its message is
    /// carried over; an absent record means full acceptance — all counters
    /// zero, an empty message. The other two counters are never populated
    /// from a metrics response.
    pub fn from_metrics_response(response: ExportMetricsServiceResponse) -> (r: Self)
        ensures
            r.rejected_logs == 0,
            r.rejected_spans == 0,
            response.partial_success matches Some(d) ==> r.rejected_metrics
                == d.rejected_data_points && r.error_message == d.error_message,
            response.partial_success is None ==> r.rejected_metrics == 0 && r.error_message@
                == Seq::<char>::empty(),
    {
        match response.partial_success {
            Some(disposition) => Self::new(
                0,
                disposition.rejected_data_points,
                0,
                disposition.error_message,
            ),
            None => Self::new(0, 0, 0, String::new()),
        }
    }

    /// Translates a trace export response: the partial-success record's
    /// rejection count lands in the spans counter and its message is carried
    /// over; an absent record means full acceptance — all counters zero, an
    /// empty message. The other two counters are never populated from a
    /// trace response.
    pub fn from_trace_response(response: ExportTraceServiceResponse) -> (r: Self)
        ensures
            r.rejected_logs == 0,
            r.rejected_metrics == 0,
            response.partial_success matches Some(d) ==> r.rejected_spans == d.rejected_spans
                && r.error_message == d.error_message,
            response.partial_success is None ==> r.rejected_spans == 0 && r.error_message@
                == Seq::<char>::empty(),
    {
        match response.partial_success {
            Some(disposition) => Self::new(0, 0, disposition.rejected_spans, disposition.error_message),
            None => Self::new(0, 0, 0, String::new()),
        }
    }
}

} // verus!

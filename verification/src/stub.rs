//! Canned handler implementations for callback mode.
//!
//! Each stub returns a fixed, configured outcome for every request:
//! acceptance with a chosen partial-success record, or failure with a chosen
//! internal error message. An embedding application or a test can inject one
//! wherever a real handler is not wanted.

use vstd::prelude::*;

use crate::error::{ExportError, SignalKind};
use crate::logs::LogsHandler;
use crate::metrics::MetricsHandler;
use crate::proto::collector::{
    ExportLogsPartialSuccess, ExportLogsServiceRequest, ExportLogsServiceResponse,
    ExportMetricsPartialSuccess, ExportMetricsServiceRequest, ExportMetricsServiceResponse,
    ExportTracePartialSuccess, ExportTraceServiceRequest, ExportTraceServiceResponse,
};
use crate::trace::TraceHandler;

verus! {

/// The outcome a stub handler returns for every request.
pub enum CannedOutcome {
    /// Accept the export, reporting this rejection count and message
    Accept {
        /// The rejection count to report
        rejected: i64,
        /// The message to report
        message: String,
    },
    /// Fail the call with an internal error carrying this message
    Fail {
        /// The error message to carry
        message: String,
    },
}

/// A logs handler that returns its configured outcome for every request.
pub struct StubLogsHandler {
    /// The outcome every call returns
    pub outcome: CannedOutcome,
}

impl LogsHandler for StubLogsHandler {
    open spec fn handle_spec(&self, request: ExportLogsServiceRequest) -> Result<
        ExportLogsServiceResponse,
        ExportError,
    > {
        match self.outcome {
            CannedOutcome::Accept { rejected, message } => Ok(
                ExportLogsServiceResponse {
                    partial_success: Some(
                        ExportLogsPartialSuccess {
                            rejected_log_records: rejected,
                            error_message: message,
                        },
                    ),
                },
            ),
            CannedOutcome::Fail { message } => Err(
                ExportError { kind: SignalKind::Logs, message },
            ),
        }
    }

    fn handle(&self, request: ExportLogsServiceRequest) -> (r: Result<
        ExportLogsServiceResponse,
        ExportError,
    >) {
        match &self.outcome {
            CannedOutcome::Accept { rejected, message } => Ok(
                ExportLogsServiceResponse {
                    partial_success: Some(
                        ExportLogsPartialSuccess {
                            rejected_log_records: *rejected,
                            error_message: message.clone(),
                        },
                    ),
                },
            ),
            CannedOutcome::Fail { message } => Err(
                ExportError { kind: SignalKind::Logs, message: message.clone() },
            ),
        }
    }
}

/// A metrics handler that returns its configured outcome for every request.
pub struct StubMetricsHandler {
    /// The outcome every call returns
    pub outcome: CannedOutcome,
}

impl MetricsHandler for StubMetricsHandler {
    open spec fn handle_spec(&self, request: ExportMetricsServiceRequest) -> Result<
        ExportMetricsServiceResponse,
        ExportError,
    > {
        match self.outcome {
            CannedOutcome::Accept { rejected, message } => Ok(
                ExportMetricsServiceResponse {
                    partial_success: Some(
                        ExportMetricsPartialSuccess {
                            rejected_data_points: rejected,
                            error_message: message,
                        },
                    ),
                },
            ),
            CannedOutcome::Fail { message } => Err(
                ExportError { kind: SignalKind::Metrics, message },
            ),
        }
    }

    fn handle(&self, request: ExportMetricsServiceRequest) -> (r: Result<
        ExportMetricsServiceResponse,
        ExportError,
    >) {
        match &self.outcome {
            CannedOutcome::Accept { rejected, message } => Ok(
                ExportMetricsServiceResponse {
                    partial_success: Some(
                        ExportMetricsPartialSuccess {
                            rejected_data_points: *rejected,
                            error_message: message.clone(),
                        },
                    ),
                },
            ),
            CannedOutcome::Fail { message } => Err(
                ExportError { kind: SignalKind::Metrics, message: message.clone() },
            ),
        }
    }
}

/// A trace handler that returns its configured outcome for every request.
pub struct StubTraceHandler {
    /// The outcome every call returns
    pub outcome: CannedOutcome,
}

impl TraceHandler for StubTraceHandler {
    open spec fn handle_spec(&self, request: ExportTraceServiceRequest) -> Result<
        ExportTraceServiceResponse,
        ExportError,
    > {
        match self.outcome {
            CannedOutcome::Accept { rejected, message } => Ok(
                ExportTraceServiceResponse {
                    partial_success: Some(
                        ExportTracePartialSuccess { rejected_spans: rejected, error_message: message },
                    ),
                },
            ),
            CannedOutcome::Fail { message } => Err(
                ExportError { kind: SignalKind::Trace, message },
            ),
        }
    }

    fn handle(&self, request: ExportTraceServiceRequest) -> (r: Result<
        ExportTraceServiceResponse,
        ExportError,
    >) {
        match &self.outcome {
            CannedOutcome::Accept { rejected, message } => Ok(
                ExportTraceServiceResponse {
                    partial_success: Some(
                        ExportTracePartialSuccess {
                            rejected_spans: *rejected,
                            error_message: message.clone(),
                        },
                    ),
                },
            ),
            CannedOutcome::Fail { message } => Err(
                ExportError { kind: SignalKind::Trace, message: message.clone() },
            ),
        }
    }
}

} // verus!

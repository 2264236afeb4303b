//! The logs signal service: callback mode and forwarding mode.

use vstd::prelude::*;

use crate::channel::send_blocking_to;
use crate::error::{ExportError, SignalKind};
use crate::proto::collector::{
    ExportLogsPartialSuccess, ExportLogsServiceRequest, ExportLogsServiceResponse,
};

verus! {

/// Asynchronous channel sender for raw logs export requests
pub type OtelLogsSender = async_channel::Sender<ExportLogsServiceRequest>;

/// A caller-supplied strategy for handling one logs export request
/// synchronously, in place of enqueueing it. Whatever the implementation
/// returns is handed to the caller unmodified.
pub trait LogsHandler {
    /// What the handler returns for each request.
    spec fn handle_spec(&self, request: ExportLogsServiceRequest) -> Result<
        ExportLogsServiceResponse,
        ExportError,
    >;

    /// Handle one logs export request.
    fn handle(&self, request: ExportLogsServiceRequest) -> (r: Result<
        ExportLogsServiceResponse,
        ExportError,
    >)
        ensures
            r == self.handle_spec(request),
    ;
}

/// The logs service in callback mode: each export call invokes the injected
/// handler directly, with no queue and no backpressure of its own.
pub struct OtelLogsService<H: LogsHandler> {
    /// The injected logs event handler
    pub on_logs: H,
}

impl<H: LogsHandler> OtelLogsService<H> {
    /// Creates a logs service with the specified logs event handler.
    pub fn with_handler(handler: H) -> (r: Self)
        ensures
            r.on_logs == handler,
    {
        OtelLogsService { on_logs: handler }
    }

    /// Answers one logs export call with exactly what the injected handler
    /// returns, unmodified.
    pub fn export(&self, request: ExportLogsServiceRequest) -> (r: Result<
        ExportLogsServiceResponse,
        ExportError,
    >)
        ensures
            r == self.on_logs.handle_spec(request),
    {
        self.on_logs.handle(request)
    }
}

/// Whether a response reports acceptance of a logs export into the hand-off
/// point: zero rejected records and the literal status text.
pub open spec fn logs_accepted_response(resp: ExportLogsServiceResponse) -> bool {
    &&& resp.partial_success matches Some(p)
    &&& p.rejected_log_records == 0
    &&& p.error_message@ == "Ok"@
}

/// The response a logs forwarder owes for each hand-off outcome: acceptance
/// with zero rejections exactly when the enqueue succeeded, and an internal
/// error naming the logs signal exactly when the channel was closed.
pub fn logs_handoff_response<T>(outcome: Result<(), T>) -> (r: Result<
    ExportLogsServiceResponse,
    ExportError,
>)
    ensures
        r is Ok <==> outcome is Ok,
        r matches Ok(resp) ==> logs_accepted_response(resp),
        r matches Err(e) ==> e.reports_closed_channel(SignalKind::Logs),
{
    match outcome {
        Ok(()) => Ok(
            ExportLogsServiceResponse {
                partial_success: Some(
                    ExportLogsPartialSuccess {
                        rejected_log_records: 0,
                        error_message: "Ok".to_owned(),
                    },
                ),
            },
        ),
        Err(_) => Err(ExportError::channel_closed(SignalKind::Logs)),
    }
}

/// The logs service in forwarding mode: each export call enqueues the raw
/// request onto a dedicated logs channel.
pub struct OtelLogsServiceForwarder {
    /// The sending half of the logs hand-off channel
    pub channel: OtelLogsSender,
}

impl OtelLogsServiceForwarder {
    /// Creates a logs forwarding agent with an asynchronous channel sender.
    pub fn with_sender(channel: OtelLogsSender) -> (r: Self)
        ensures
            r.channel == channel,
    {
        OtelLogsServiceForwarder { channel }
    }

    /// Attempts exactly one hand-off of the request to the logs channel. On
    /// success the response accepts the export with zero rejected records and
    /// the status text; once the consumer is gone the call fails with an
    /// internal error naming the logs signal.
    pub fn export(&self, request: ExportLogsServiceRequest) -> (r: Result<
        ExportLogsServiceResponse,
        ExportError,
    >)
        ensures
            r matches Ok(resp) ==> logs_accepted_response(resp),
            r matches Err(e) ==> e.reports_closed_channel(SignalKind::Logs),
    {
        let outcome = send_blocking_to(&self.channel, request);
        logs_handoff_response(outcome)
    }
}

} // verus!

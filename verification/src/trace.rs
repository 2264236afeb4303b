//! The trace signal service: callback mode.
//!
//! Traces have no dedicated per-signal forwarding channel; trace forwarding
//! runs through the unified channel of [`crate::all`].

use vstd::prelude::*;

use crate::error::{ExportError, SignalKind};
use crate::proto::collector::{
    ExportTracePartialSuccess, ExportTraceServiceRequest, ExportTraceServiceResponse,
};

verus! {

/// A caller-supplied strategy for handling one trace export request
/// synchronously, in place of enqueueing it. Whatever the implementation
/// returns is handed to the caller unmodified.
pub trait TraceHandler {
    /// What the handler returns for each request.
    spec fn handle_spec(&self, request: ExportTraceServiceRequest) -> Result<
        ExportTraceServiceResponse,
        ExportError,
    >;

    /// Handle one trace export request.
    fn handle(&self, request: ExportTraceServiceRequest) -> (r: Result<
        ExportTraceServiceResponse,
        ExportError,
    >)
        ensures
            r == self.handle_spec(request),
    ;
}

/// The trace service in callback mode: each export call invokes the injected
/// handler directly, with no queue and no backpressure of its own.
pub struct OtelTraceService<H: TraceHandler> {
    /// The injected trace event handler
    pub on_trace: H,
}

impl<H: TraceHandler> OtelTraceService<H> {
    /// Creates a trace service with the specified trace event handler.
    pub fn with_handler(handler: H) -> (r: Self)
        ensures
            r.on_trace == handler,
    {
        OtelTraceService { on_trace: handler }
    }

    /// Answers one trace export call with exactly what the injected handler
    /// returns, unmodified.
    pub fn export(&self, request: ExportTraceServiceRequest) -> (r: Result<
        ExportTraceServiceResponse,
        ExportError,
    >)
        ensures
            r == self.on_trace.handle_spec(request),
    {
        self.on_trace.handle(request)
    }
}

/// Whether a response reports acceptance of a trace export into the hand-off
/// point: zero rejected spans and the literal status text.
pub open spec fn trace_accepted_response(resp: ExportTraceServiceResponse) -> bool {
    &&& resp.partial_success matches Some(p)
    &&& p.rejected_spans == 0
    &&& p.error_message@ == "Ok"@
}

/// The response a trace forwarder owes for each hand-off outcome: acceptance
/// with zero rejections exactly when the enqueue succeeded, and an internal
/// error naming the trace signal exactly when the channel was closed.
pub fn trace_handoff_response<T>(outcome: Result<(), T>) -> (r: Result<
    ExportTraceServiceResponse,
    ExportError,
>)
    ensures
        r is Ok <==> outcome is Ok,
        r matches Ok(resp) ==> trace_accepted_response(resp),
        r matches Err(e) ==> e.reports_closed_channel(SignalKind::Trace),
{
    match outcome {
        Ok(()) => Ok(
            ExportTraceServiceResponse {
                partial_success: Some(
                    ExportTracePartialSuccess { rejected_spans: 0, error_message: "Ok".to_owned() },
                ),
            },
        ),
        Err(_) => Err(ExportError::channel_closed(SignalKind::Trace)),
    }
}

} // verus!

//! The metrics signal service: callback mode and forwarding mode.

use vstd::prelude::*;

use crate::channel::send_blocking_to;
use crate::error::{ExportError, SignalKind};
use crate::proto::collector::{
    ExportMetricsPartialSuccess, ExportMetricsServiceRequest, ExportMetricsServiceResponse,
};

verus! {

/// Asynchronous channel sender for raw metrics export requests
pub type OtelMetricsSender = async_channel::Sender<ExportMetricsServiceRequest>;

/// A caller-supplied strategy for handling one metrics export request
/// synchronously, in place of enqueueing it. Whatever the implementation
/// returns is handed to the caller unmodified.
pub trait MetricsHandler {
    /// What the handler returns for each request.
    spec fn handle_spec(&self, request: ExportMetricsServiceRequest) -> Result<
        ExportMetricsServiceResponse,
        ExportError,
    >;

    /// Handle one metrics export request.
    fn handle(&self, request: ExportMetricsServiceRequest) -> (r: Result<
        ExportMetricsServiceResponse,
        ExportError,
    >)
        ensures
            r == self.handle_spec(request),
    ;
}

/// The metrics service in callback mode: each export call invokes the
/// injected handler directly, with no queue and no backpressure of its own.
pub struct OtelMetricsService<H: MetricsHandler> {
    /// The injected metrics event handler
    pub on_metrics: H,
}

impl<H: MetricsHandler> OtelMetricsService<H> {
    /// Creates a metrics service with the specified metrics event handler.
    pub fn with_handler(handler: H) -> (r: Self)
        ensures
            r.on_metrics == handler,
    {
        OtelMetricsService { on_metrics: handler }
    }

    /// Answers one metrics export call with exactly what the injected
    /// handler returns, unmodified.
    pub fn export(&self, request: ExportMetricsServiceRequest) -> (r: Result<
        ExportMetricsServiceResponse,
        ExportError,
    >)
        ensures
            r == self.on_metrics.handle_spec(request),
    {
        self.on_metrics.handle(request)
    }
}

/// Whether a response reports acceptance of a metrics export into the
/// hand-off point: zero rejected data points and the literal status text.
pub open spec fn metrics_accepted_response(resp: ExportMetricsServiceResponse) -> bool {
    &&& resp.partial_success matches Some(p)
    &&& p.rejected_data_points == 0
    &&& p.error_message@ == "Ok"@
}

/// The response a metrics forwarder owes for each hand-off outcome:
/// acceptance with zero rejections exactly when the enqueue succeeded, and
/// an internal error naming the metrics signal exactly when the channel was
/// closed.
pub fn metrics_handoff_response<T>(outcome: Result<(), T>) -> (r: Result<
    ExportMetricsServiceResponse,
    ExportError,
>)
    ensures
        r is Ok <==> outcome is Ok,
        r matches Ok(resp) ==> metrics_accepted_response(resp),
        r matches Err(e) ==> e.reports_closed_channel(SignalKind::Metrics),
{
    match outcome {
        Ok(()) => Ok(
            ExportMetricsServiceResponse {
                partial_success: Some(
                    ExportMetricsPartialSuccess {
                        rejected_data_points: 0,
                        error_message: "Ok".to_owned(),
                    },
                ),
            },
        ),
        Err(_) => Err(ExportError::channel_closed(SignalKind::Metrics)),
    }
}

/// The metrics service in forwarding mode: each export call enqueues the raw
/// request onto a dedicated metrics channel.
pub struct OtelMetricsServiceForwarder {
    /// The sending half of the metrics hand-off channel
    pub channel: OtelMetricsSender,
}

impl OtelMetricsServiceForwarder {
    /// Creates a metrics forwarding agent with an asynchronous channel
    /// sender.
    pub fn with_sender(channel: OtelMetricsSender) -> (r: Self)
        ensures
            r.channel == channel,
    {
        OtelMetricsServiceForwarder { channel }
    }

    /// Attempts exactly one hand-off of the request to the metrics channel.
    /// On success the response accepts the export with zero rejected data
    /// points and the status text; once the consumer is gone the call fails
    /// with an internal error naming the metrics signal.
    pub fn export(&self, request: ExportMetricsServiceRequest) -> (r: Result<
        ExportMetricsServiceResponse,
        ExportError,
    >)
        ensures
            r matches Ok(resp) ==> metrics_accepted_response(resp),
            r matches Err(e) ==> e.reports_closed_channel(SignalKind::Metrics),
    {
        let outcome = send_blocking_to(&self.channel, request);
        metrics_handoff_response(outcome)
    }
}

} // verus!

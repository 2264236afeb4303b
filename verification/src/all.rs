//! The unified services: one shared hand-off channel carrying all three
//! signal kinds, drained by a single downstream consumer.
//!
//! Each forwarder here wraps the incoming request, together with the
//! caller's origin when the transport exposes one, into an
//! [`OpenTelemetryEvents`] envelope and attempts exactly one send. No
//! ordering is guaranteed across signal kinds; each producer's own sends
//! enter the queue in call order.

use vstd::prelude::*;

use crate::channel::send_blocking_to;
use crate::error::{ExportError, SignalKind};
use crate::logs::{logs_accepted_response, logs_handoff_response};
use crate::metrics::{metrics_accepted_response, metrics_handoff_response};
use crate::proto::collector::{
    ExportLogsServiceRequest, ExportLogsServiceResponse, ExportMetricsServiceRequest,
    ExportMetricsServiceResponse, ExportTraceServiceRequest, ExportTraceServiceResponse,
};
use crate::trace::{trace_accepted_response, trace_handoff_response};

verus! {

/// The network peer an export call arrived from, when the transport layer
/// exposes it.
#[derive(Clone, Copy, Debug, PartialEq, Eq)]
#[allow(inconsistent_fields)]
pub enum PeerAddress {
    /// An IPv4 peer: four address octets and a port
    V4 {
        /// The address octets
        octets: [u8; 4],
        /// The port number
        port: u16,
    },
    /// An IPv6 peer: sixteen address octets and a port
    V6 {
        /// The address octets
        octets: [u8; 16],
        /// The port number
        port: u16,
    },
}

/// The envelope carried by the unified channel: exactly one decoded payload,
/// tagged with its signal kind, plus the caller's origin when known. Built
/// once per inbound call and owned by whoever holds it next — caller, then
/// channel, then consumer.
pub enum OpenTelemetryEvents {
    /// A logs export request
    Logs(ExportLogsServiceRequest, Option<PeerAddress>),
    /// A metrics export request
    Metrics(ExportMetricsServiceRequest, Option<PeerAddress>),
    /// A trace export request
    Trace(ExportTraceServiceRequest, Option<PeerAddress>),
}

/// Asynchronous channel sender for unified envelopes
pub type OpenTelemetrySender = async_channel::Sender<OpenTelemetryEvents>;

/// The logs service backed by the unified channel.
pub struct LogsServiceForwarder {
    /// The sending half of the unified hand-off channel
    pub channel: OpenTelemetrySender,
}

impl LogsServiceForwarder {
    /// Creates a logs service forwarding agent.
    pub fn with_sender(channel: OpenTelemetrySender) -> (r: Self)
        ensures
            r.channel == channel,
    {
        LogsServiceForwarder { channel }
    }

    /// Wraps the request and origin into a logs envelope and attempts
    /// exactly one hand-off to the unified channel. On success the response
    /// accepts the export with zero rejected records and the status text;
    /// once the consumer is gone the call fails with an internal error
    /// naming the logs signal.
    pub fn export(&self, request: ExportLogsServiceRequest, origin: Option<PeerAddress>) -> (r:
        Result<ExportLogsServiceResponse, ExportError>)
        ensures
            r matches Ok(resp) ==> logs_accepted_response(resp),
            r matches Err(e) ==> e.reports_closed_channel(SignalKind::Logs),
    {
        let envelope = OpenTelemetryEvents::Logs(request, origin);
        let outcome = send_blocking_to(&self.channel, envelope);
        logs_handoff_response(outcome)
    }
}

/// The metrics service backed by the unified channel.
pub struct MetricsServiceForwarder {
    /// The sending half of the unified hand-off channel
    pub channel: OpenTelemetrySender,
}

impl MetricsServiceForwarder {
    /// Creates a metrics service forwarding agent.
    pub fn with_sender(channel: OpenTelemetrySender) -> (r: Self)
        ensures
            r.channel == channel,
    {
        MetricsServiceForwarder { channel }
    }

    /// Wraps the request and origin into a metrics envelope and attempts
    /// exactly one hand-off to the unified channel. On success the response
    /// accepts the export with zero rejected data points and the status
    /// text; once the consumer is gone the call fails with an internal error
    /// naming the metrics signal.
    pub fn export(&self, request: ExportMetricsServiceRequest, origin: Option<PeerAddress>) -> (r:
        Result<ExportMetricsServiceResponse, ExportError>)
        ensures
            r matches Ok(resp) ==> metrics_accepted_response(resp),
            r matches Err(e) ==> e.reports_closed_channel(SignalKind::Metrics),
    {
        let envelope = OpenTelemetryEvents::Metrics(request, origin);
        let outcome = send_blocking_to(&self.channel, envelope);
        metrics_handoff_response(outcome)
    }
}

/// The trace service backed by the unified channel.
pub struct TraceServiceForwarder {
    /// The sending half of the unified hand-off channel
    pub channel: OpenTelemetrySender,
}

impl TraceServiceForwarder {
    /// Creates a trace service forwarding agent.
    pub fn with_sender(channel: OpenTelemetrySender) -> (r: Self)
        ensures
            r.channel == channel,
    {
        TraceServiceForwarder { channel }
    }

    /// Wraps the request and origin into a trace envelope and attempts
    /// exactly one hand-off to the unified channel. On success the response
    /// accepts the export with zero rejected spans and the status text; once
    /// the consumer is gone the call fails with an internal error naming the
    /// trace signal.
    pub fn export(&self, request: ExportTraceServiceRequest, origin: Option<PeerAddress>) -> (r:
        Result<ExportTraceServiceResponse, ExportError>)
        ensures
            r matches Ok(resp) ==> trace_accepted_response(resp),
            r matches Err(e) ==> e.reports_closed_channel(SignalKind::Trace),
    {
        let envelope = OpenTelemetryEvents::Trace(request, origin);
        let outcome = send_blocking_to(&self.channel, envelope);
        trace_handoff_response(outcome)
    }
}

} // verus!

//! The error a forwarder surfaces when its hand-off fails.
//!
//! The bridge's error taxonomy is deliberately small: the only call-level
//! failure is a hand-off failure — the channel's consumer is gone — which is
//! reported to the caller as an internal error whose text names the signal
//! kind and the underlying channel failure. A downstream rejection is not a
//! call-level error; it travels inside a normal response's partial-success
//! record instead.

use vstd::prelude::*;

verus! {

/// One of the three telemetry signal kinds the bridge forwards.
#[derive(Clone, Copy, Debug, PartialEq, Eq, Structural)]
pub enum SignalKind {
    /// Log records
    Logs,
    /// Metric data points
    Metrics,
    /// Trace spans
    Trace,
}

/// An internal error returned to the caller of an export operation when the
/// hand-off to the downstream consumer fails.
#[derive(Debug)]
pub struct ExportError {
    /// The signal kind whose export failed
    pub kind: SignalKind,
    /// A human-readable description naming the signal kind and the
    /// underlying failure
    pub message: String,
}

/// The message text reported when the hand-off channel of the given signal
/// kind is closed: the signal kind's name, the forwarding stage that failed,
/// and the channel's own description of the failure.
pub open spec fn closed_channel_message(kind: SignalKind) -> Seq<char> {
    match kind {
        SignalKind::Logs =>
            "Logs gRPC forwarder channel sender failed to dispatch sending into a closed channel"@,
        SignalKind::Metrics =>
            "Metrics gRPC forwarder channel sender failed to dispatch sending into a closed channel"@,
        SignalKind::Trace =>
            "Trace gRPC forwarder channel sender failed to dispatch sending into a closed channel"@,
    }
}

impl ExportError {
    /// Whether this error reports a closed hand-off channel for the given
    /// signal kind.
    pub open spec fn reports_closed_channel(self, kind: SignalKind) -> bool {
        &&& self.kind == kind
        &&& self.message@ == closed_channel_message(kind)
    }

    /// The internal error reported when the hand-off channel of the given
    /// signal kind is closed.
    pub fn channel_closed(kind: SignalKind) -> (e: Self)
        ensures
            e.reports_closed_channel(kind),
    {
        let message = match kind {
            SignalKind::Logs =>
                "Logs gRPC forwarder channel sender failed to dispatch sending into a closed channel".to_owned(),
            SignalKind::Metrics =>
                "Metrics gRPC forwarder channel sender failed to dispatch sending into a closed channel".to_owned(),
            SignalKind::Trace =>
                "Trace gRPC forwarder channel sender failed to dispatch sending into a closed channel".to_owned(),
        };
        ExportError { kind, message }
    }
}

} // verus!

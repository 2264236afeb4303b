//! A wire-level bridge for the OpenTelemetry collector protocol: it accepts
//! unary export calls carrying one of three telemetry signal kinds — logs,
//! metrics, traces — and funnels them into a single downstream consumer,
//! answering each caller with a uniform, partially-fallible acknowledgement.
//!
//! The bridge itself never inspects payload contents: each export call is
//! wrapped into an envelope together with the caller's origin, handed off to
//! a bounded channel (or to an injected handler in callback mode), and the
//! outcome of that hand-off is translated into the OTLP "partial success"
//! response shape.

pub mod all;
pub mod channel;
pub mod common;
pub mod error;
pub mod logs;
pub mod metrics;
pub mod proto;
pub mod stub;
pub mod trace;

pub use common::FallibleOtelResponse;
pub use error::{ExportError, SignalKind};

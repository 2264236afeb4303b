use otelapis::all::{
    LogsServiceForwarder, MetricsServiceForwarder, OpenTelemetryEvents, PeerAddress,
    TraceServiceForwarder,
};
use otelapis::error::SignalKind;
use otelapis::logs::OtelLogsServiceForwarder;
use otelapis::metrics::OtelMetricsServiceForwarder;
use otelapis::proto::collector::{
    ExportLogsServiceRequest, ExportMetricsServiceRequest, ExportTraceServiceRequest,
};
use otelapis::proto::common::{InstrumentationLibrary, StringKeyValue};
use otelapis::proto::logs::{InstrumentationLibraryLogs, LogRecord, ResourceLogs, SeverityNumber};
use otelapis::proto::metrics::{
    Data, InstrumentationLibraryMetrics, IntDataPoint, IntGauge, Metric, ResourceMetrics,
};
use otelapis::proto::trace::{InstrumentationLibrarySpans, ResourceSpans, Span};

fn sample_log_record() -> LogRecord {
    LogRecord {
        time_unix_nano: 1_619_000_000_000_000_000,
        severity_number: SeverityNumber::Info.code(),
        severity_text: "INFO".to_string(),
        name: "ProcessStarted".to_string(),
        body: None,
        attributes: Vec::new(),
        dropped_attributes_count: 0,
        flags: 0,
        trace_id: vec![0u8; 16],
        span_id: vec![0u8; 8],
    }
}

fn sample_logs_request() -> ExportLogsServiceRequest {
    ExportLogsServiceRequest {
        resource_logs: vec![ResourceLogs {
            resource: None,
            instrumentation_library_logs: vec![InstrumentationLibraryLogs {
                instrumentation_library: Some(InstrumentationLibrary {
                    name: "test-lib".to_string(),
                    version: "0.1".to_string(),
                }),
                logs: vec![sample_log_record()],
            }],
        }],
    }
}

fn sample_metrics_request() -> ExportMetricsServiceRequest {
    ExportMetricsServiceRequest {
        resource_metrics: vec![ResourceMetrics {
            resource: None,
            instrumentation_library_metrics: vec![InstrumentationLibraryMetrics {
                instrumentation_library: None,
                metrics: vec![Metric {
                    name: "requests".to_string(),
                    description: "how many requests came in".to_string(),
                    unit: "1".to_string(),
                    data: Some(Data::IntGauge(IntGauge {
                        data_points: vec![IntDataPoint {
                            labels: vec![StringKeyValue {
                                key: "host".to_string(),
                                value: "a".to_string(),
                            }],
                            start_time_unix_nano: 0,
                            time_unix_nano: 1_619_000_000_000_000_000,
                            value: 42,
                            exemplars: Vec::new(),
                        }],
                    })),
                }],
            }],
        }],
    }
}

fn sample_trace_request() -> ExportTraceServiceRequest {
    ExportTraceServiceRequest {
        resource_spans: vec![ResourceSpans {
            resource: None,
            instrumentation_library_spans: vec![InstrumentationLibrarySpans {
                instrumentation_library: None,
                spans: vec![Span {
                    trace_id: vec![1u8; 16],
                    span_id: vec![2u8; 8],
                    parent_span_id: Vec::new(),
                    name: "handle-request".to_string(),
                    kind: 2,
                    start_time_unix_nano: 1,
                    end_time_unix_nano: 2,
                    attributes: Vec::new(),
                    dropped_attributes_count: 0,
                    status: None,
                }],
            }],
        }],
    }
}

fn sample_origin() -> PeerAddress {
    PeerAddress::V4 { octets: [127, 0, 0, 1], port: 4317 }
}

#[test]
fn unified_logs_export_accepts_and_enqueues() {
    let (sender, receiver) = async_channel::bounded(4);
    let forwarder = LogsServiceForwarder::with_sender(sender);
    let response = forwarder
        .export(sample_logs_request(), Some(sample_origin()))
        .expect("enqueue must succeed while a receiver exists");
    let partial = response.partial_success.expect("acceptance carries a partial-success record");
    assert_eq!(partial.rejected_log_records, 0);
    assert_eq!(partial.error_message, "Ok".to_string());

    let envelope = receiver.try_recv().expect("the envelope must be in the queue");
    match envelope {
        OpenTelemetryEvents::Logs(request, origin) => {
            assert_eq!(request.resource_logs.len(), 1);
            let batch = &request.resource_logs[0].instrumentation_library_logs[0];
            assert_eq!(batch.logs.len(), 1);
            assert_eq!(batch.logs[0].severity_text, "INFO".to_string());
            assert_eq!(batch.logs[0].severity_number, 9);
            assert_eq!(origin, Some(sample_origin()));
        }
        _ => panic!("a logs export must arrive tagged as a logs envelope"),
    }
}

#[test]
fn unified_metrics_export_accepts_and_enqueues() {
    let (sender, receiver) = async_channel::bounded(4);
    let forwarder = MetricsServiceForwarder::with_sender(sender);
    let response = forwarder
        .export(sample_metrics_request(), Some(sample_origin()))
        .expect("enqueue must succeed while a receiver exists");
    let partial = response.partial_success.expect("acceptance carries a partial-success record");
    assert_eq!(partial.rejected_data_points, 0);
    assert_eq!(partial.error_message, "Ok".to_string());

    let envelope = receiver.try_recv().expect("the envelope must be in the queue");
    match envelope {
        OpenTelemetryEvents::Metrics(request, origin) => {
            let metric = &request.resource_metrics[0].instrumentation_library_metrics[0].metrics[0];
            assert_eq!(metric.name, "requests".to_string());
            match metric.data.as_ref().expect("the gauge must survive the hand-off") {
                Data::IntGauge(gauge) => assert_eq!(gauge.data_points[0].value, 42),
                _ => panic!("the data shape must survive the hand-off"),
            }
            assert_eq!(origin, Some(sample_origin()));
        }
        _ => panic!("a metrics export must arrive tagged as a metrics envelope"),
    }
}

#[test]
fn unified_trace_export_accepts_and_enqueues() {
    let (sender, receiver) = async_channel::bounded(4);
    let forwarder = TraceServiceForwarder::with_sender(sender);
    let response = forwarder
        .export(sample_trace_request(), None)
        .expect("enqueue must succeed while a receiver exists");
    let partial = response.partial_success.expect("acceptance carries a partial-success record");
    assert_eq!(partial.rejected_spans, 0);
    assert_eq!(partial.error_message, "Ok".to_string());

    let envelope = receiver.try_recv().expect("the envelope must be in the queue");
    match envelope {
        OpenTelemetryEvents::Trace(request, origin) => {
            let span = &request.resource_spans[0].instrumentation_library_spans[0].spans[0];
            assert_eq!(span.name, "handle-request".to_string());
            assert_eq!(span.trace_id, vec![1u8; 16]);
            assert_eq!(origin, None);
        }
        _ => panic!("a trace export must arrive tagged as a trace envelope"),
    }
}

#[test]
fn unified_logs_export_fails_once_consumer_is_gone() {
    let (sender, receiver) = async_channel::bounded::<OpenTelemetryEvents>(4);
    drop(receiver);
    let forwarder = LogsServiceForwarder::with_sender(sender);
    let error = forwarder
        .export(sample_logs_request(), None)
        .expect_err("a closed channel must fail the call");
    assert!(matches!(error.kind, SignalKind::Logs));
    assert_eq!(
        error.message,
        "Logs gRPC forwarder channel sender failed to dispatch sending into a closed channel"
            .to_string(),
    );
}

#[test]
fn unified_metrics_export_fails_once_consumer_is_gone() {
    let (sender, receiver) = async_channel::bounded::<OpenTelemetryEvents>(4);
    drop(receiver);
    let forwarder = MetricsServiceForwarder::with_sender(sender);
    let error = forwarder
        .export(sample_metrics_request(), None)
        .expect_err("a closed channel must fail the call");
    assert!(matches!(error.kind, SignalKind::Metrics));
    assert_eq!(
        error.message,
        "Metrics gRPC forwarder channel sender failed to dispatch sending into a closed channel"
            .to_string(),
    );
}

#[test]
fn unified_trace_export_fails_once_consumer_is_gone() {
    let (sender, receiver) = async_channel::bounded::<OpenTelemetryEvents>(4);
    drop(receiver);
    let forwarder = TraceServiceForwarder::with_sender(sender);
    let error = forwarder
        .export(sample_trace_request(), None)
        .expect_err("a closed channel must fail the call");
    assert!(matches!(error.kind, SignalKind::Trace));
    assert_eq!(
        error.message,
        "Trace gRPC forwarder channel sender failed to dispatch sending into a closed channel"
            .to_string(),
    );
}

#[test]
fn per_kind_logs_forwarder_accepts_and_fails_like_the_unified_one() {
    let (sender, receiver) = async_channel::bounded(2);
    let forwarder = OtelLogsServiceForwarder::with_sender(sender);
    let response = forwarder.export(sample_logs_request()).expect("enqueue must succeed");
    let partial = response.partial_success.expect("acceptance carries a partial-success record");
    assert_eq!(partial.rejected_log_records, 0);
    assert_eq!(partial.error_message, "Ok".to_string());
    let request = receiver.try_recv().expect("the raw request must be in the queue");
    assert_eq!(request.resource_logs.len(), 1);

    drop(receiver);
    let error = forwarder.export(sample_logs_request()).expect_err("closed channel must fail");
    assert!(matches!(error.kind, SignalKind::Logs));
    assert_eq!(
        error.message,
        "Logs gRPC forwarder channel sender failed to dispatch sending into a closed channel"
            .to_string(),
    );
}

#[test]
fn per_kind_metrics_forwarder_accepts_and_fails_like_the_unified_one() {
    let (sender, receiver) = async_channel::bounded(2);
    let forwarder = OtelMetricsServiceForwarder::with_sender(sender);
    let response = forwarder.export(sample_metrics_request()).expect("enqueue must succeed");
    let partial = response.partial_success.expect("acceptance carries a partial-success record");
    assert_eq!(partial.rejected_data_points, 0);
    assert_eq!(partial.error_message, "Ok".to_string());
    let request = receiver.try_recv().expect("the raw request must be in the queue");
    assert_eq!(request.resource_metrics.len(), 1);

    drop(receiver);
    let error = forwarder.export(sample_metrics_request()).expect_err("closed channel must fail");
    assert!(matches!(error.kind, SignalKind::Metrics));
    assert_eq!(
        error.message,
        "Metrics gRPC forwarder channel sender failed to dispatch sending into a closed channel"
            .to_string(),
    );
}

#[test]
fn closing_the_consumer_is_terminal_and_idempotent() {
    let (sender, receiver) = async_channel::bounded::<OpenTelemetryEvents>(2);
    assert!(receiver.close());
    assert!(!receiver.close());

    let forwarder = TraceServiceForwarder::with_sender(sender);
    let error = forwarder
        .export(sample_trace_request(), None)
        .expect_err("after close every send fails at once");
    assert!(matches!(error.kind, SignalKind::Trace));
    let error = forwarder
        .export(sample_trace_request(), None)
        .expect_err("closing is terminal: the next send fails too");
    assert!(matches!(error.kind, SignalKind::Trace));
}

#[test]
fn capacity_one_channel_gives_backpressure() {
    let (sender, receiver) = async_channel::bounded(1);
    let forwarder = LogsServiceForwarder::with_sender(sender.clone());

    // With one free slot the first call completes immediately.
    let response = forwarder
        .export(sample_logs_request(), None)
        .expect("the first hand-off fits the single slot");
    assert_eq!(response.partial_success.expect("acceptance record").rejected_log_records, 0);

    // The queue is now full: a second concurrent call could not proceed — it
    // would stay suspended until the consumer drains a slot.
    assert!(sender.is_full());
    let blocked = sender.try_send(OpenTelemetryEvents::Logs(sample_logs_request(), None));
    assert!(matches!(blocked, Err(async_channel::TrySendError::Full(_))));

    // Draining one envelope makes room, and the next call completes again.
    receiver.try_recv().expect("the consumer drains the first envelope");
    let response = forwarder
        .export(sample_logs_request(), None)
        .expect("after draining, the hand-off fits again");
    assert_eq!(response.partial_success.expect("acceptance record").error_message, "Ok".to_string());
}

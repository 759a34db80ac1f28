use opentelemetry_proto::tonic::collector::logs::v1::ExportLogsServiceRequest;
use opentelemetry_proto::tonic::collector::metrics::v1::ExportMetricsServiceRequest;
use opentelemetry_proto::tonic::collector::trace::v1::ExportTraceServiceRequest;
use opentelemetry_proto::tonic::logs::v1::{LogRecord, ResourceLogs, ScopeLogs};
use opentelemetry_proto::tonic::metrics::v1::{Metric, ResourceMetrics, ScopeMetrics};
use opentelemetry_proto::tonic::resource::v1::Resource;
use opentelemetry_proto::tonic::trace::v1::{ResourceSpans, ScopeSpans, Span};
use otk::decode::{decode, decode_export_request, decode_struct, CodecError};
use otk::message::DecodedMessage;
use otk::shape::DecodeType;
use prost::Message;

fn a_span() -> Span {
    Span {
        trace_id: vec![1, 2, 3, 4, 5, 6, 7, 8, 9, 10, 11, 12, 13, 14, 15, 16],
        span_id: vec![8, 7, 6, 5, 4, 3, 2, 1],
        name: String::from("checkout"),
        kind: 2,
        start_time_unix_nano: 1_700_000_000_000_000_000,
        end_time_unix_nano: 1_700_000_000_500_000_000,
        ..Default::default()
    }
}

fn a_metric() -> Metric {
    Metric {
        name: String::from("requests"),
        description: String::from("requests served"),
        unit: String::from("1"),
        ..Default::default()
    }
}

fn a_log_record() -> LogRecord {
    LogRecord {
        time_unix_nano: 42,
        severity_number: 9,
        severity_text: String::from("INFO"),
        trace_id: vec![0xab; 16],
        ..Default::default()
    }
}

fn a_resource() -> Resource {
    Resource { attributes: Vec::new(), dropped_attributes_count: 3 }
}

fn scope_spans() -> ScopeSpans {
    ScopeSpans {
        scope: None,
        spans: vec![a_span()],
        schema_url: String::from("https://example.test/schema"),
    }
}

fn scope_metrics() -> ScopeMetrics {
    ScopeMetrics { scope: None, metrics: vec![a_metric()], schema_url: String::from("m") }
}

fn scope_logs() -> ScopeLogs {
    ScopeLogs { scope: None, log_records: vec![a_log_record()], schema_url: String::from("l") }
}

fn resource_spans() -> ResourceSpans {
    ResourceSpans {
        resource: Some(a_resource()),
        scope_spans: vec![scope_spans()],
        schema_url: String::new(),
    }
}

fn resource_metrics() -> ResourceMetrics {
    ResourceMetrics {
        resource: Some(a_resource()),
        scope_metrics: vec![scope_metrics()],
        schema_url: String::new(),
    }
}

fn resource_logs() -> ResourceLogs {
    ResourceLogs {
        resource: Some(a_resource()),
        scope_logs: vec![scope_logs()],
        schema_url: String::new(),
    }
}

fn payloads() -> Vec<(DecodeType, Vec<u8>)> {
    vec![
        (DecodeType::Span, a_span().encode_to_vec()),
        (DecodeType::Metric, a_metric().encode_to_vec()),
        (DecodeType::LogRecord, a_log_record().encode_to_vec()),
        (DecodeType::ScopeSpans, scope_spans().encode_to_vec()),
        (DecodeType::ScopeMetrics, scope_metrics().encode_to_vec()),
        (DecodeType::ScopeLogs, scope_logs().encode_to_vec()),
        (DecodeType::Resource, a_resource().encode_to_vec()),
        (DecodeType::ResourceSpans, resource_spans().encode_to_vec()),
        (DecodeType::ResourceMetrics, resource_metrics().encode_to_vec()),
        (DecodeType::ResourceLogs, resource_logs().encode_to_vec()),
        (
            DecodeType::ExportTraceServiceRequest,
            ExportTraceServiceRequest { resource_spans: vec![resource_spans()] }.encode_to_vec(),
        ),
        (
            DecodeType::ExportMetricsServiceRequest,
            ExportMetricsServiceRequest { resource_metrics: vec![resource_metrics()] }
                .encode_to_vec(),
        ),
        (
            DecodeType::ExportLogsServiceRequest,
            ExportLogsServiceRequest { resource_logs: vec![resource_logs()] }.encode_to_vec(),
        ),
    ]
}

#[test]
fn span_comes_back_as_it_was_encoded() {
    let bytes = a_span().encode_to_vec();
    match decode(&DecodeType::Span, &bytes) {
        Ok(DecodedMessage::Span(span)) => assert_eq!(span, a_span()),
        other => panic!("unexpected: {:?}", other),
    }
}

#[test]
fn metric_comes_back_as_it_was_encoded() {
    let bytes = a_metric().encode_to_vec();
    match decode(&DecodeType::Metric, &bytes) {
        Ok(DecodedMessage::Metric(metric)) => assert_eq!(metric, a_metric()),
        other => panic!("unexpected: {:?}", other),
    }
}

#[test]
fn log_record_comes_back_as_it_was_encoded() {
    let bytes = a_log_record().encode_to_vec();
    match decode(&DecodeType::LogRecord, &bytes) {
        Ok(DecodedMessage::LogRecord(record)) => assert_eq!(record, a_log_record()),
        other => panic!("unexpected: {:?}", other),
    }
}

#[test]
fn scope_spans_come_back_as_they_were_encoded() {
    let bytes = scope_spans().encode_to_vec();
    match decode(&DecodeType::ScopeSpans, &bytes) {
        Ok(DecodedMessage::ScopeSpans(message)) => assert_eq!(message, scope_spans()),
        other => panic!("unexpected: {:?}", other),
    }
}

#[test]
fn scope_metrics_come_back_as_they_were_encoded() {
    let bytes = scope_metrics().encode_to_vec();
    match decode(&DecodeType::ScopeMetrics, &bytes) {
        Ok(DecodedMessage::ScopeMetrics(message)) => assert_eq!(message, scope_metrics()),
        other => panic!("unexpected: {:?}", other),
    }
}

#[test]
fn scope_logs_come_back_as_they_were_encoded() {
    let bytes = scope_logs().encode_to_vec();
    match decode(&DecodeType::ScopeLogs, &bytes) {
        Ok(DecodedMessage::ScopeLogs(message)) => assert_eq!(message, scope_logs()),
        other => panic!("unexpected: {:?}", other),
    }
}

#[test]
fn resource_comes_back_as_it_was_encoded() {
    let bytes = a_resource().encode_to_vec();
    match decode(&DecodeType::Resource, &bytes) {
        Ok(DecodedMessage::Resource(message)) => assert_eq!(message, a_resource()),
        other => panic!("unexpected: {:?}", other),
    }
}

#[test]
fn resource_spans_come_back_as_they_were_encoded() {
    let bytes = resource_spans().encode_to_vec();
    match decode(&DecodeType::ResourceSpans, &bytes) {
        Ok(DecodedMessage::ResourceSpans(message)) => assert_eq!(message, resource_spans()),
        other => panic!("unexpected: {:?}", other),
    }
}

#[test]
fn resource_metrics_come_back_as_they_were_encoded() {
    let bytes = resource_metrics().encode_to_vec();
    match decode(&DecodeType::ResourceMetrics, &bytes) {
        Ok(DecodedMessage::ResourceMetrics(message)) => assert_eq!(message, resource_metrics()),
        other => panic!("unexpected: {:?}", other),
    }
}

#[test]
fn resource_logs_come_back_as_they_were_encoded() {
    let bytes = resource_logs().encode_to_vec();
    match decode(&DecodeType::ResourceLogs, &bytes) {
        Ok(DecodedMessage::ResourceLogs(message)) => assert_eq!(message, resource_logs()),
        other => panic!("unexpected: {:?}", other),
    }
}

#[test]
fn trace_request_comes_back_as_it_was_encoded() {
    let request = ExportTraceServiceRequest { resource_spans: vec![resource_spans()] };
    let bytes = request.encode_to_vec();
    match decode(&DecodeType::ExportTraceServiceRequest, &bytes) {
        Ok(DecodedMessage::ExportTraceServiceRequest(message)) => assert_eq!(message, request),
        other => panic!("unexpected: {:?}", other),
    }
    assert_eq!(decode_export_request(&bytes).unwrap(), request);
}

#[test]
fn metrics_request_comes_back_as_it_was_encoded() {
    let request = ExportMetricsServiceRequest { resource_metrics: vec![resource_metrics()] };
    let bytes = request.encode_to_vec();
    match decode(&DecodeType::ExportMetricsServiceRequest, &bytes) {
        Ok(DecodedMessage::ExportMetricsServiceRequest(message)) => assert_eq!(message, request),
        other => panic!("unexpected: {:?}", other),
    }
}

#[test]
fn logs_request_comes_back_as_it_was_encoded() {
    let request = ExportLogsServiceRequest { resource_logs: vec![resource_logs()] };
    let bytes = request.encode_to_vec();
    match decode(&DecodeType::ExportLogsServiceRequest, &bytes) {
        Ok(DecodedMessage::ExportLogsServiceRequest(message)) => assert_eq!(message, request),
        other => panic!("unexpected: {:?}", other),
    }
}

#[test]
fn a_message_has_the_shape_it_was_read_as() {
    for (shape, bytes) in payloads() {
        let message = decode(&shape, &bytes).unwrap();
        assert_eq!(message.shape(), shape);
    }
    assert_eq!(decode(&DecodeType::Direct, &[1, 2]).unwrap().shape(), DecodeType::Direct);
}

#[test]
fn an_empty_payload_is_no_message() {
    for shape in DecodeType::catalog() {
        if shape == DecodeType::Direct {
            continue;
        }
        match decode(&shape, &[]) {
            Err(CodecError::EmptyPayload) => {}
            other => panic!("{:?}: unexpected: {:?}", shape, other),
        }
        match decode_struct(&shape, &[], false) {
            Err(CodecError::EmptyPayload) => {}
            other => panic!("{:?}: unexpected: {:?}", shape, other),
        }
    }
    assert!(matches!(decode_export_request(&[]), Err(CodecError::EmptyPayload)));
}

#[test]
fn a_truncated_payload_is_no_message() {
    for (shape, bytes) in payloads() {
        let cut = &bytes[..bytes.len() - 1];
        match decode(&shape, cut) {
            Err(CodecError::Malformed(reason)) => {
                assert!(
                    reason.starts_with("failed to decode Protobuf message: "),
                    "{:?}: {}",
                    shape,
                    reason
                );
            }
            other => panic!("{:?}: unexpected: {:?}", shape, other),
        }
    }
}

#[test]
fn the_codec_is_reported_in_its_own_words() {
    let bytes = a_span().encode_to_vec();
    let cut = &bytes[..bytes.len() - 1];
    let theirs = Span::decode(cut).unwrap_err().to_string();
    match decode(&DecodeType::Span, cut) {
        Err(error) => {
            assert_eq!(error.message(), theirs);
            assert!(matches!(error, CodecError::Malformed(reason) if reason == theirs));
        }
        Ok(message) => panic!("unexpected: {:?}", message),
    }
    assert_eq!(CodecError::EmptyPayload.message(), "empty payload");
}

#[test]
fn a_payload_of_another_wire_type_is_refused() {
    // field 1 of a span holds bytes; here it is sent as a varint
    let bytes = [0x08, 0x01];
    assert!(matches!(decode(&DecodeType::Span, &bytes), Err(CodecError::Malformed(_))));
    // a key alone, with nothing behind it
    assert!(matches!(decode(&DecodeType::Metric, &[0x0a]), Err(CodecError::Malformed(_))));
    // a varint that never ends
    let endless = [0xff; 11];
    assert!(matches!(decode(&DecodeType::Resource, &endless), Err(CodecError::Malformed(_))));
}

#[test]
fn direct_takes_any_bytes() {
    let inputs: Vec<Vec<u8>> = vec![
        vec![],
        vec![0],
        vec![0xff; 11],
        vec![0x0a],
        a_span().encode_to_vec(),
        (0..=255).collect(),
    ];
    for bytes in inputs {
        match decode(&DecodeType::Direct, &bytes) {
            Ok(DecodedMessage::Direct(kept)) => assert_eq!(kept, bytes),
            other => panic!("unexpected: {:?}", other),
        }
        assert!(decode_struct(&DecodeType::Direct, &bytes, false).is_ok());
        assert!(decode_struct(&DecodeType::Direct, &bytes, true).is_ok());
    }
}

#[test]
fn direct_shows_the_bytes() {
    assert_eq!(decode_struct(&DecodeType::Direct, &[1, 2, 255], false).unwrap(), "[1, 2, 255]");
    assert_eq!(
        decode_struct(&DecodeType::Direct, &[1, 2, 255], true).unwrap(),
        "[\n    1,\n    2,\n    255,\n]"
    );
    assert_eq!(decode_struct(&DecodeType::Direct, &[], false).unwrap(), "[]");
    assert_eq!(decode_struct(&DecodeType::Direct, &[], true).unwrap(), "[]");
}

#[test]
fn a_message_is_shown_on_one_line_or_indented() {
    let bytes = a_span().encode_to_vec();
    let compact = decode_struct(&DecodeType::Span, &bytes, false).unwrap();
    let pretty = decode_struct(&DecodeType::Span, &bytes, true).unwrap();
    assert_eq!(compact, format!("{:?}", a_span()));
    assert_eq!(pretty, format!("{:#?}", a_span()));
    assert!(!compact.contains('\n'));
    assert!(pretty.contains('\n'));
    assert!(compact.starts_with("Span { trace_id: [1, 2, 3, 4, 5, 6, 7, 8, 9, 10, 11, 12, 13, 14, 15, 16]"));
    assert!(compact.contains("name: \"checkout\""));
}

#[test]
fn every_shape_is_shown_as_its_message_is() {
    let request = ExportTraceServiceRequest { resource_spans: vec![resource_spans()] };
    let metrics = ExportMetricsServiceRequest { resource_metrics: vec![resource_metrics()] };
    let logs = ExportLogsServiceRequest { resource_logs: vec![resource_logs()] };
    let expected: Vec<(DecodeType, String, String)> = vec![
        (DecodeType::Span, format!("{:?}", a_span()), format!("{:#?}", a_span())),
        (DecodeType::Metric, format!("{:?}", a_metric()), format!("{:#?}", a_metric())),
        (
            DecodeType::LogRecord,
            format!("{:?}", a_log_record()),
            format!("{:#?}", a_log_record()),
        ),
        (DecodeType::ScopeSpans, format!("{:?}", scope_spans()), format!("{:#?}", scope_spans())),
        (
            DecodeType::ScopeMetrics,
            format!("{:?}", scope_metrics()),
            format!("{:#?}", scope_metrics()),
        ),
        (DecodeType::ScopeLogs, format!("{:?}", scope_logs()), format!("{:#?}", scope_logs())),
        (DecodeType::Resource, format!("{:?}", a_resource()), format!("{:#?}", a_resource())),
        (
            DecodeType::ResourceSpans,
            format!("{:?}", resource_spans()),
            format!("{:#?}", resource_spans()),
        ),
        (
            DecodeType::ResourceMetrics,
            format!("{:?}", resource_metrics()),
            format!("{:#?}", resource_metrics()),
        ),
        (
            DecodeType::ResourceLogs,
            format!("{:?}", resource_logs()),
            format!("{:#?}", resource_logs()),
        ),
        (DecodeType::ExportTraceServiceRequest, format!("{:?}", request), format!("{:#?}", request)),
        (
            DecodeType::ExportMetricsServiceRequest,
            format!("{:?}", metrics),
            format!("{:#?}", metrics),
        ),
        (DecodeType::ExportLogsServiceRequest, format!("{:?}", logs), format!("{:#?}", logs)),
    ];
    let payloads = payloads();
    assert_eq!(payloads.len(), expected.len());
    for ((shape, bytes), (same, compact, pretty)) in payloads.into_iter().zip(expected) {
        assert_eq!(shape, same);
        assert_eq!(decode_struct(&shape, &bytes, false).unwrap(), compact);
        assert_eq!(decode_struct(&shape, &bytes, true).unwrap(), pretty);
        let message = decode(&shape, &bytes).unwrap();
        assert_eq!(message.render(false), compact);
        assert_eq!(message.render(true), pretty);
    }
}

#[test]
fn a_payload_is_read_as_the_shape_asked_for_and_no_other() {
    // the bytes of a resource, read as a span: field 1 of a resource holds
    // a message, field 1 of a span holds bytes, and both are length-delimited
    let resource = Resource { attributes: Vec::new(), dropped_attributes_count: 7 };
    let bytes = resource.encode_to_vec();
    match decode(&DecodeType::Resource, &bytes) {
        Ok(DecodedMessage::Resource(message)) => assert_eq!(message, resource),
        other => panic!("unexpected: {:?}", other),
    }
    match decode(&DecodeType::Span, &bytes) {
        Ok(DecodedMessage::Span(_)) | Err(CodecError::Malformed(_)) => {}
        other => panic!("unexpected: {:?}", other),
    }
}

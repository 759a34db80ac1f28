//! The wire codec: the message types of the protocol and their decoders.
//!
//! The messages are those of the `opentelemetry-proto` crate, and `prost`
//! decodes them. Nothing in this file is proved. Each item states what the
//! library takes from those two crates on trust: that a decoder reads nothing
//! but the bytes it is given, so that the same payload always decodes to the
//! same result. What that result is, the library does not say; it has a name
//! for each decoder's result and speaks of it by that name.

use vstd::prelude::*;
use opentelemetry_proto::tonic::collector::logs::v1::ExportLogsServiceRequest;
use opentelemetry_proto::tonic::collector::metrics::v1::ExportMetricsServiceRequest;
use opentelemetry_proto::tonic::collector::trace::v1::ExportTraceServiceRequest;
use opentelemetry_proto::tonic::logs::v1::{LogRecord, ResourceLogs, ScopeLogs};
use opentelemetry_proto::tonic::metrics::v1::{Metric, ResourceMetrics, ScopeMetrics};
use opentelemetry_proto::tonic::resource::v1::Resource;
use opentelemetry_proto::tonic::trace::v1::{ResourceSpans, ScopeSpans, Span};
use prost::Message;

verus! {

// The message types. They are opaque here: the library carries a message from
// its decoder to its renderer and reads no field of it, but for the trace
// identifiers of an export request, which have accessors of their own.

/// `Span` of `opentelemetry-proto`: a span.
#[verifier::external_type_specification]
#[verifier::external_body]
pub struct ExSpan(Span);

/// `Metric` of `opentelemetry-proto`: a metric.
#[verifier::external_type_specification]
#[verifier::external_body]
pub struct ExMetric(Metric);

/// `LogRecord` of `opentelemetry-proto`: a log record.
#[verifier::external_type_specification]
#[verifier::external_body]
pub struct ExLogRecord(LogRecord);

/// `ScopeSpans` of `opentelemetry-proto`: the spans of one instrumentation scope.
#[verifier::external_type_specification]
#[verifier::external_body]
pub struct ExScopeSpans(ScopeSpans);

/// `ScopeMetrics` of `opentelemetry-proto`: the metrics of one instrumentation scope.
#[verifier::external_type_specification]
#[verifier::external_body]
pub struct ExScopeMetrics(ScopeMetrics);

/// `ScopeLogs` of `opentelemetry-proto`: the log records of one instrumentation scope.
#[verifier::external_type_specification]
#[verifier::external_body]
pub struct ExScopeLogs(ScopeLogs);

/// `Resource` of `opentelemetry-proto`: a resource.
#[verifier::external_type_specification]
#[verifier::external_body]
pub struct ExResource(Resource);

/// `ResourceSpans` of `opentelemetry-proto`: the spans of one resource.
#[verifier::external_type_specification]
#[verifier::external_body]
pub struct ExResourceSpans(ResourceSpans);

/// `ResourceMetrics` of `opentelemetry-proto`: the metrics of one resource.
#[verifier::external_type_specification]
#[verifier::external_body]
pub struct ExResourceMetrics(ResourceMetrics);

/// `ResourceLogs` of `opentelemetry-proto`: the log records of one resource.
#[verifier::external_type_specification]
#[verifier::external_body]
pub struct ExResourceLogs(ResourceLogs);

/// `ExportTraceServiceRequest` of `opentelemetry-proto`: a request that exports spans.
#[verifier::external_type_specification]
#[verifier::external_body]
pub struct ExExportTraceServiceRequest(ExportTraceServiceRequest);

/// `ExportMetricsServiceRequest` of `opentelemetry-proto`: a request that exports metrics.
#[verifier::external_type_specification]
#[verifier::external_body]
pub struct ExExportMetricsServiceRequest(ExportMetricsServiceRequest);

/// `ExportLogsServiceRequest` of `opentelemetry-proto`: a request that exports log records.
#[verifier::external_type_specification]
#[verifier::external_body]
pub struct ExExportLogsServiceRequest(ExportLogsServiceRequest);

/// `prost::DecodeError`: why a payload is no message of the requested type.
#[verifier::external_type_specification]
#[verifier::external_body]
pub struct ExDecodeError(prost::DecodeError);

// The decoders. `Message::decode` starts from the default message and merges
// the payload's fields into it one by one; it returns the error of the first
// field that does not parse, and it does not panic.

/// What `Span::decode` returns for these bytes.
pub uninterp spec fn span_decoding(bytes: Seq<u8>) -> Result<Span, prost::DecodeError>;

/// Calls `<Span as prost::Message>::decode` on the payload. The result is a
/// function of the payload alone.
#[verifier::external_body]
pub(crate) fn decode_span(payload: &[u8]) -> (decoded: Result<Span, prost::DecodeError>)
    ensures
        decoded == span_decoding(payload@),
{
    Span::decode(payload)
}

/// What `Metric::decode` returns for these bytes.
pub uninterp spec fn metric_decoding(bytes: Seq<u8>) -> Result<Metric, prost::DecodeError>;

/// Calls `<Metric as prost::Message>::decode` on the payload. The result is a
/// function of the payload alone.
#[verifier::external_body]
pub(crate) fn decode_metric(payload: &[u8]) -> (decoded: Result<Metric, prost::DecodeError>)
    ensures
        decoded == metric_decoding(payload@),
{
    Metric::decode(payload)
}

/// What `LogRecord::decode` returns for these bytes.
pub uninterp spec fn log_record_decoding(bytes: Seq<u8>) -> Result<LogRecord, prost::DecodeError>;

/// Calls `<LogRecord as prost::Message>::decode` on the payload. The result is a
/// function of the payload alone.
#[verifier::external_body]
pub(crate) fn decode_log_record(payload: &[u8]) -> (decoded: Result<LogRecord, prost::DecodeError>)
    ensures
        decoded == log_record_decoding(payload@),
{
    LogRecord::decode(payload)
}

/// What `ScopeSpans::decode` returns for these bytes.
pub uninterp spec fn scope_spans_decoding(bytes: Seq<u8>) -> Result<
    ScopeSpans,
    prost::DecodeError,
>;

/// Calls `<ScopeSpans as prost::Message>::decode` on the payload. The result is a
/// function of the payload alone.
#[verifier::external_body]
pub(crate) fn decode_scope_spans(payload: &[u8]) -> (decoded: Result<
    ScopeSpans,
    prost::DecodeError,
>)
    ensures
        decoded == scope_spans_decoding(payload@),
{
    ScopeSpans::decode(payload)
}

/// What `ScopeMetrics::decode` returns for these bytes.
pub uninterp spec fn scope_metrics_decoding(bytes: Seq<u8>) -> Result<
    ScopeMetrics,
    prost::DecodeError,
>;

/// Calls `<ScopeMetrics as prost::Message>::decode` on the payload. The result is a
/// function of the payload alone.
#[verifier::external_body]
pub(crate) fn decode_scope_metrics(payload: &[u8]) -> (decoded: Result<
    ScopeMetrics,
    prost::DecodeError,
>)
    ensures
        decoded == scope_metrics_decoding(payload@),
{
    ScopeMetrics::decode(payload)
}

/// What `ScopeLogs::decode` returns for these bytes.
pub uninterp spec fn scope_logs_decoding(bytes: Seq<u8>) -> Result<ScopeLogs, prost::DecodeError>;

/// Calls `<ScopeLogs as prost::Message>::decode` on the payload. The result is a
/// function of the payload alone.
#[verifier::external_body]
pub(crate) fn decode_scope_logs(payload: &[u8]) -> (decoded: Result<ScopeLogs, prost::DecodeError>)
    ensures
        decoded == scope_logs_decoding(payload@),
{
    ScopeLogs::decode(payload)
}

/// What `Resource::decode` returns for these bytes.
pub uninterp spec fn resource_decoding(bytes: Seq<u8>) -> Result<Resource, prost::DecodeError>;

/// Calls `<Resource as prost::Message>::decode` on the payload. The result is a
/// function of the payload alone.
#[verifier::external_body]
pub(crate) fn decode_resource(payload: &[u8]) -> (decoded: Result<Resource, prost::DecodeError>)
    ensures
        decoded == resource_decoding(payload@),
{
    Resource::decode(payload)
}

/// What `ResourceSpans::decode` returns for these bytes.
pub uninterp spec fn resource_spans_decoding(bytes: Seq<u8>) -> Result<
    ResourceSpans,
    prost::DecodeError,
>;

/// Calls `<ResourceSpans as prost::Message>::decode` on the payload. The result is a
/// function of the payload alone.
#[verifier::external_body]
pub(crate) fn decode_resource_spans(payload: &[u8]) -> (decoded: Result<
    ResourceSpans,
    prost::DecodeError,
>)
    ensures
        decoded == resource_spans_decoding(payload@),
{
    ResourceSpans::decode(payload)
}

/// What `ResourceMetrics::decode` returns for these bytes.
pub uninterp spec fn resource_metrics_decoding(bytes: Seq<u8>) -> Result<
    ResourceMetrics,
    prost::DecodeError,
>;

/// Calls `<ResourceMetrics as prost::Message>::decode` on the payload. The result is a
/// function of the payload alone.
#[verifier::external_body]
pub(crate) fn decode_resource_metrics(payload: &[u8]) -> (decoded: Result<
    ResourceMetrics,
    prost::DecodeError,
>)
    ensures
        decoded == resource_metrics_decoding(payload@),
{
    ResourceMetrics::decode(payload)
}

/// What `ResourceLogs::decode` returns for these bytes.
pub uninterp spec fn resource_logs_decoding(bytes: Seq<u8>) -> Result<
    ResourceLogs,
    prost::DecodeError,
>;

/// Calls `<ResourceLogs as prost::Message>::decode` on the payload. The result is a
/// function of the payload alone.
#[verifier::external_body]
pub(crate) fn decode_resource_logs(payload: &[u8]) -> (decoded: Result<
    ResourceLogs,
    prost::DecodeError,
>)
    ensures
        decoded == resource_logs_decoding(payload@),
{
    ResourceLogs::decode(payload)
}

/// What `ExportTraceServiceRequest::decode` returns for these bytes.
pub uninterp spec fn trace_request_decoding(bytes: Seq<u8>) -> Result<
    ExportTraceServiceRequest,
    prost::DecodeError,
>;

/// Calls `<ExportTraceServiceRequest as prost::Message>::decode` on the payload. The result is a
/// function of the payload alone.
#[verifier::external_body]
pub(crate) fn decode_trace_request(payload: &[u8]) -> (decoded: Result<
    ExportTraceServiceRequest,
    prost::DecodeError,
>)
    ensures
        decoded == trace_request_decoding(payload@),
{
    ExportTraceServiceRequest::decode(payload)
}

/// What `ExportMetricsServiceRequest::decode` returns for these bytes.
pub uninterp spec fn metrics_request_decoding(bytes: Seq<u8>) -> Result<
    ExportMetricsServiceRequest,
    prost::DecodeError,
>;

/// Calls `<ExportMetricsServiceRequest as prost::Message>::decode` on the payload. The result is a
/// function of the payload alone.
#[verifier::external_body]
pub(crate) fn decode_metrics_request(payload: &[u8]) -> (decoded: Result<
    ExportMetricsServiceRequest,
    prost::DecodeError,
>)
    ensures
        decoded == metrics_request_decoding(payload@),
{
    ExportMetricsServiceRequest::decode(payload)
}

/// What `ExportLogsServiceRequest::decode` returns for these bytes.
pub uninterp spec fn logs_request_decoding(bytes: Seq<u8>) -> Result<
    ExportLogsServiceRequest,
    prost::DecodeError,
>;

/// Calls `<ExportLogsServiceRequest as prost::Message>::decode` on the payload. The result is a
/// function of the payload alone.
#[verifier::external_body]
pub(crate) fn decode_logs_request(payload: &[u8]) -> (decoded: Result<
    ExportLogsServiceRequest,
    prost::DecodeError,
>)
    ensures
        decoded == logs_request_decoding(payload@),
{
    ExportLogsServiceRequest::decode(payload)
}

/// The text that `prost` gives for a decoding error.
pub uninterp spec fn decode_error_text(error: prost::DecodeError) -> Seq<char>;

/// Calls `to_string` on a decoding error, which goes through its `Display`
/// impl: a fixed preamble, then the path of message and field names down to
/// the place of failure, then the cause.
#[verifier::external_body]
pub(crate) fn decode_error_message(error: &prost::DecodeError) -> (text: String)
    ensures
        text@ == decode_error_text(*error),
{
    error.to_string()
}

} // verus!

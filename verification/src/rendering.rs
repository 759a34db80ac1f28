//! The text of a message: what its `Debug` impl writes.
//!
//! A message is shown in one of two forms: on one line (`{:?}`), or indented
//! over several lines (`{:#?}`). Both are written by the `Debug` impls that
//! `prost` derives for the message types, and for raw bytes by the impl that
//! the standard library has for slices. Nothing in this file is proved. The
//! library takes on trust that the text depends on the message and the form
//! alone, and has a name for the text of each type.

use vstd::prelude::*;
use opentelemetry_proto::tonic::collector::logs::v1::ExportLogsServiceRequest;
use opentelemetry_proto::tonic::collector::metrics::v1::ExportMetricsServiceRequest;
use opentelemetry_proto::tonic::collector::trace::v1::ExportTraceServiceRequest;
use opentelemetry_proto::tonic::logs::v1::{LogRecord, ResourceLogs, ScopeLogs};
use opentelemetry_proto::tonic::metrics::v1::{Metric, ResourceMetrics, ScopeMetrics};
use opentelemetry_proto::tonic::resource::v1::Resource;
use opentelemetry_proto::tonic::trace::v1::{ResourceSpans, ScopeSpans, Span};

verus! {

/// The text of raw bytes: the list of their values, indented if `pretty`.
pub uninterp spec fn bytes_text(bytes: Seq<u8>, pretty: bool) -> Seq<char>;

/// Formats a byte slice with `{:?}`, through the `Debug` impl of slices.
#[verifier::external_body]
pub(crate) fn bytes_compact(bytes: &[u8]) -> (text: String)
    ensures
        text@ == bytes_text(bytes@, false),
{
    format!("{:?}", bytes)
}

/// Formats a byte slice with `{:#?}`, through the `Debug` impl of slices.
#[verifier::external_body]
pub(crate) fn bytes_pretty(bytes: &[u8]) -> (text: String)
    ensures
        text@ == bytes_text(bytes@, true),
{
    format!("{:#?}", bytes)
}

/// The text of a `Span`, indented if `pretty`.
pub uninterp spec fn span_text(message: Span, pretty: bool) -> Seq<char>;

/// Formats a `Span` with `{:?}`, through the `Debug` impl of the type.
#[verifier::external_body]
pub(crate) fn span_compact(message: &Span) -> (text: String)
    ensures
        text@ == span_text(*message, false),
{
    format!("{:?}", message)
}

/// Formats a `Span` with `{:#?}`, through the `Debug` impl of the type.
#[verifier::external_body]
pub(crate) fn span_pretty(message: &Span) -> (text: String)
    ensures
        text@ == span_text(*message, true),
{
    format!("{:#?}", message)
}

/// The text of a `Metric`, indented if `pretty`.
pub uninterp spec fn metric_text(message: Metric, pretty: bool) -> Seq<char>;

/// Formats a `Metric` with `{:?}`, through the `Debug` impl of the type.
#[verifier::external_body]
pub(crate) fn metric_compact(message: &Metric) -> (text: String)
    ensures
        text@ == metric_text(*message, false),
{
    format!("{:?}", message)
}

/// Formats a `Metric` with `{:#?}`, through the `Debug` impl of the type.
#[verifier::external_body]
pub(crate) fn metric_pretty(message: &Metric) -> (text: String)
    ensures
        text@ == metric_text(*message, true),
{
    format!("{:#?}", message)
}

/// The text of a `LogRecord`, indented if `pretty`.
pub uninterp spec fn log_record_text(message: LogRecord, pretty: bool) -> Seq<char>;

/// Formats a `LogRecord` with `{:?}`, through the `Debug` impl of the type.
#[verifier::external_body]
pub(crate) fn log_record_compact(message: &LogRecord) -> (text: String)
    ensures
        text@ == log_record_text(*message, false),
{
    format!("{:?}", message)
}

/// Formats a `LogRecord` with `{:#?}`, through the `Debug` impl of the type.
#[verifier::external_body]
pub(crate) fn log_record_pretty(message: &LogRecord) -> (text: String)
    ensures
        text@ == log_record_text(*message, true),
{
    format!("{:#?}", message)
}

/// The text of a `ScopeSpans`, indented if `pretty`.
pub uninterp spec fn scope_spans_text(message: ScopeSpans, pretty: bool) -> Seq<char>;

/// Formats a `ScopeSpans` with `{:?}`, through the `Debug` impl of the type.
#[verifier::external_body]
pub(crate) fn scope_spans_compact(message: &ScopeSpans) -> (text: String)
    ensures
        text@ == scope_spans_text(*message, false),
{
    format!("{:?}", message)
}

/// Formats a `ScopeSpans` with `{:#?}`, through the `Debug` impl of the type.
#[verifier::external_body]
pub(crate) fn scope_spans_pretty(message: &ScopeSpans) -> (text: String)
    ensures
        text@ == scope_spans_text(*message, true),
{
    format!("{:#?}", message)
}

/// The text of a `ScopeMetrics`, indented if `pretty`.
pub uninterp spec fn scope_metrics_text(message: ScopeMetrics, pretty: bool) -> Seq<char>;

/// Formats a `ScopeMetrics` with `{:?}`, through the `Debug` impl of the type.
#[verifier::external_body]
pub(crate) fn scope_metrics_compact(message: &ScopeMetrics) -> (text: String)
    ensures
        text@ == scope_metrics_text(*message, false),
{
    format!("{:?}", message)
}

/// Formats a `ScopeMetrics` with `{:#?}`, through the `Debug` impl of the type.
#[verifier::external_body]
pub(crate) fn scope_metrics_pretty(message: &ScopeMetrics) -> (text: String)
    ensures
        text@ == scope_metrics_text(*message, true),
{
    format!("{:#?}", message)
}

/// The text of a `ScopeLogs`, indented if `pretty`.
pub uninterp spec fn scope_logs_text(message: ScopeLogs, pretty: bool) -> Seq<char>;

/// Formats a `ScopeLogs` with `{:?}`, through the `Debug` impl of the type.
#[verifier::external_body]
pub(crate) fn scope_logs_compact(message: &ScopeLogs) -> (text: String)
    ensures
        text@ == scope_logs_text(*message, false),
{
    format!("{:?}", message)
}

/// Formats a `ScopeLogs` with `{:#?}`, through the `Debug` impl of the type.
#[verifier::external_body]
pub(crate) fn scope_logs_pretty(message: &ScopeLogs) -> (text: String)
    ensures
        text@ == scope_logs_text(*message, true),
{
    format!("{:#?}", message)
}

/// The text of a `Resource`, indented if `pretty`.
pub uninterp spec fn resource_text(message: Resource, pretty: bool) -> Seq<char>;

/// Formats a `Resource` with `{:?}`, through the `Debug` impl of the type.
#[verifier::external_body]
pub(crate) fn resource_compact(message: &Resource) -> (text: String)
    ensures
        text@ == resource_text(*message, false),
{
    format!("{:?}", message)
}

/// Formats a `Resource` with `{:#?}`, through the `Debug` impl of the type.
#[verifier::external_body]
pub(crate) fn resource_pretty(message: &Resource) -> (text: String)
    ensures
        text@ == resource_text(*message, true),
{
    format!("{:#?}", message)
}

/// The text of a `ResourceSpans`, indented if `pretty`.
pub uninterp spec fn resource_spans_text(message: ResourceSpans, pretty: bool) -> Seq<char>;

/// Formats a `ResourceSpans` with `{:?}`, through the `Debug` impl of the type.
#[verifier::external_body]
pub(crate) fn resource_spans_compact(message: &ResourceSpans) -> (text: String)
    ensures
        text@ == resource_spans_text(*message, false),
{
    format!("{:?}", message)
}

/// Formats a `ResourceSpans` with `{:#?}`, through the `Debug` impl of the type.
#[verifier::external_body]
pub(crate) fn resource_spans_pretty(message: &ResourceSpans) -> (text: String)
    ensures
        text@ == resource_spans_text(*message, true),
{
    format!("{:#?}", message)
}

/// The text of a `ResourceMetrics`, indented if `pretty`.
pub uninterp spec fn resource_metrics_text(message: ResourceMetrics, pretty: bool) -> Seq<char>;

/// Formats a `ResourceMetrics` with `{:?}`, through the `Debug` impl of the type.
#[verifier::external_body]
pub(crate) fn resource_metrics_compact(message: &ResourceMetrics) -> (text: String)
    ensures
        text@ == resource_metrics_text(*message, false),
{
    format!("{:?}", message)
}

/// Formats a `ResourceMetrics` with `{:#?}`, through the `Debug` impl of the type.
#[verifier::external_body]
pub(crate) fn resource_metrics_pretty(message: &ResourceMetrics) -> (text: String)
    ensures
        text@ == resource_metrics_text(*message, true),
{
    format!("{:#?}", message)
}

/// The text of a `ResourceLogs`, indented if `pretty`.
pub uninterp spec fn resource_logs_text(message: ResourceLogs, pretty: bool) -> Seq<char>;

/// Formats a `ResourceLogs` with `{:?}`, through the `Debug` impl of the type.
#[verifier::external_body]
pub(crate) fn resource_logs_compact(message: &ResourceLogs) -> (text: String)
    ensures
        text@ == resource_logs_text(*message, false),
{
    format!("{:?}", message)
}

/// Formats a `ResourceLogs` with `{:#?}`, through the `Debug` impl of the type.
#[verifier::external_body]
pub(crate) fn resource_logs_pretty(message: &ResourceLogs) -> (text: String)
    ensures
        text@ == resource_logs_text(*message, true),
{
    format!("{:#?}", message)
}

/// The text of a `ExportTraceServiceRequest`, indented if `pretty`.
pub uninterp spec fn trace_request_text(
    message: ExportTraceServiceRequest,
    pretty: bool,
) -> Seq<char>;

/// Formats a `ExportTraceServiceRequest` with `{:?}`, through the `Debug` impl of the type.
#[verifier::external_body]
pub(crate) fn trace_request_compact(message: &ExportTraceServiceRequest) -> (text: String)
    ensures
        text@ == trace_request_text(*message, false),
{
    format!("{:?}", message)
}

/// Formats a `ExportTraceServiceRequest` with `{:#?}`, through the `Debug` impl of the type.
#[verifier::external_body]
pub(crate) fn trace_request_pretty(message: &ExportTraceServiceRequest) -> (text: String)
    ensures
        text@ == trace_request_text(*message, true),
{
    format!("{:#?}", message)
}

/// The text of a `ExportMetricsServiceRequest`, indented if `pretty`.
pub uninterp spec fn metrics_request_text(
    message: ExportMetricsServiceRequest,
    pretty: bool,
) -> Seq<char>;

/// Formats a `ExportMetricsServiceRequest` with `{:?}`, through the `Debug` impl of the type.
#[verifier::external_body]
pub(crate) fn metrics_request_compact(message: &ExportMetricsServiceRequest) -> (text: String)
    ensures
        text@ == metrics_request_text(*message, false),
{
    format!("{:?}", message)
}

/// Formats a `ExportMetricsServiceRequest` with `{:#?}`, through the `Debug` impl of the type.
#[verifier::external_body]
pub(crate) fn metrics_request_pretty(message: &ExportMetricsServiceRequest) -> (text: String)
    ensures
        text@ == metrics_request_text(*message, true),
{
    format!("{:#?}", message)
}

/// The text of a `ExportLogsServiceRequest`, indented if `pretty`.
pub uninterp spec fn logs_request_text(
    message: ExportLogsServiceRequest,
    pretty: bool,
) -> Seq<char>;

/// Formats a `ExportLogsServiceRequest` with `{:?}`, through the `Debug` impl of the type.
#[verifier::external_body]
pub(crate) fn logs_request_compact(message: &ExportLogsServiceRequest) -> (text: String)
    ensures
        text@ == logs_request_text(*message, false),
{
    format!("{:?}", message)
}

/// Formats a `ExportLogsServiceRequest` with `{:#?}`, through the `Debug` impl of the type.
#[verifier::external_body]
pub(crate) fn logs_request_pretty(message: &ExportLogsServiceRequest) -> (text: String)
    ensures
        text@ == logs_request_text(*message, true),
{
    format!("{:#?}", message)
}

} // verus!

//! A decoded message, whatever its shape.

use vstd::prelude::*;
use opentelemetry_proto::tonic::collector::logs::v1::ExportLogsServiceRequest;
use opentelemetry_proto::tonic::collector::metrics::v1::ExportMetricsServiceRequest;
use opentelemetry_proto::tonic::collector::trace::v1::ExportTraceServiceRequest;
use opentelemetry_proto::tonic::logs::v1::{LogRecord, ResourceLogs, ScopeLogs};
use opentelemetry_proto::tonic::metrics::v1::{Metric, ResourceMetrics, ScopeMetrics};
use opentelemetry_proto::tonic::resource::v1::Resource;
use opentelemetry_proto::tonic::trace::v1::{ResourceSpans, ScopeSpans, Span};
use crate::rendering::{
    bytes_compact, bytes_pretty, bytes_text,
    span_compact, span_pretty, span_text,
    metric_compact, metric_pretty, metric_text,
    log_record_compact, log_record_pretty, log_record_text,
    scope_spans_compact, scope_spans_pretty, scope_spans_text,
    scope_metrics_compact, scope_metrics_pretty, scope_metrics_text,
    scope_logs_compact, scope_logs_pretty, scope_logs_text,
    resource_compact, resource_pretty, resource_text,
    resource_spans_compact, resource_spans_pretty, resource_spans_text,
    resource_metrics_compact, resource_metrics_pretty, resource_metrics_text,
    resource_logs_compact, resource_logs_pretty, resource_logs_text,
    trace_request_compact, trace_request_pretty, trace_request_text,
    metrics_request_compact, metrics_request_pretty, metrics_request_text,
    logs_request_compact, logs_request_pretty, logs_request_text,
};
use crate::shape::DecodeType;

verus! {

/// What a payload was read as: the raw bytes under `Direct`, else the message
/// of the shape that the variant names.
#[derive(Debug)]
pub enum DecodedMessage {
    Direct(Vec<u8>),
    Span(Span),
    Metric(Metric),
    LogRecord(LogRecord),
    ScopeSpans(ScopeSpans),
    ScopeMetrics(ScopeMetrics),
    ScopeLogs(ScopeLogs),
    Resource(Resource),
    ResourceSpans(ResourceSpans),
    ResourceMetrics(ResourceMetrics),
    ResourceLogs(ResourceLogs),
    ExportTraceServiceRequest(ExportTraceServiceRequest),
    ExportMetricsServiceRequest(ExportMetricsServiceRequest),
    ExportLogsServiceRequest(ExportLogsServiceRequest),
}

/// The value of a [`DecodedMessage`]: the same message, with the raw bytes as
/// a sequence.
pub enum MessageView {
    Direct(Seq<u8>),
    Span(Span),
    Metric(Metric),
    LogRecord(LogRecord),
    ScopeSpans(ScopeSpans),
    ScopeMetrics(ScopeMetrics),
    ScopeLogs(ScopeLogs),
    Resource(Resource),
    ResourceSpans(ResourceSpans),
    ResourceMetrics(ResourceMetrics),
    ResourceLogs(ResourceLogs),
    ExportTraceServiceRequest(ExportTraceServiceRequest),
    ExportMetricsServiceRequest(ExportMetricsServiceRequest),
    ExportLogsServiceRequest(ExportLogsServiceRequest),
}

impl View for DecodedMessage {
    type V = MessageView;

    open spec fn view(&self) -> MessageView {
        match self {
            DecodedMessage::Direct(bytes) => MessageView::Direct(bytes@),
            DecodedMessage::Span(message) => MessageView::Span(*message),
            DecodedMessage::Metric(message) => MessageView::Metric(*message),
            DecodedMessage::LogRecord(message) => MessageView::LogRecord(*message),
            DecodedMessage::ScopeSpans(message) => MessageView::ScopeSpans(*message),
            DecodedMessage::ScopeMetrics(message) => MessageView::ScopeMetrics(*message),
            DecodedMessage::ScopeLogs(message) => MessageView::ScopeLogs(*message),
            DecodedMessage::Resource(message) => MessageView::Resource(*message),
            DecodedMessage::ResourceSpans(message) => MessageView::ResourceSpans(*message),
            DecodedMessage::ResourceMetrics(message) => MessageView::ResourceMetrics(*message),
            DecodedMessage::ResourceLogs(message) => MessageView::ResourceLogs(*message),
            DecodedMessage::ExportTraceServiceRequest(message) =>
                MessageView::ExportTraceServiceRequest(*message),
            DecodedMessage::ExportMetricsServiceRequest(message) =>
                MessageView::ExportMetricsServiceRequest(*message),
            DecodedMessage::ExportLogsServiceRequest(message) =>
                MessageView::ExportLogsServiceRequest(*message),
        }
    }
}

impl MessageView {
    /// The shape that the message has.
    pub open spec fn shape(self) -> DecodeType {
        match self {
            MessageView::Direct(_) => DecodeType::Direct,
            MessageView::Span(_) => DecodeType::Span,
            MessageView::Metric(_) => DecodeType::Metric,
            MessageView::LogRecord(_) => DecodeType::LogRecord,
            MessageView::ScopeSpans(_) => DecodeType::ScopeSpans,
            MessageView::ScopeMetrics(_) => DecodeType::ScopeMetrics,
            MessageView::ScopeLogs(_) => DecodeType::ScopeLogs,
            MessageView::Resource(_) => DecodeType::Resource,
            MessageView::ResourceSpans(_) => DecodeType::ResourceSpans,
            MessageView::ResourceMetrics(_) => DecodeType::ResourceMetrics,
            MessageView::ResourceLogs(_) => DecodeType::ResourceLogs,
            MessageView::ExportTraceServiceRequest(_) => DecodeType::ExportTraceServiceRequest,
            MessageView::ExportMetricsServiceRequest(_) => DecodeType::ExportMetricsServiceRequest,
            MessageView::ExportLogsServiceRequest(_) => DecodeType::ExportLogsServiceRequest,
        }
    }

    /// The text of the message, on one line or, if `pretty`, indented over
    /// several.
    pub open spec fn text(self, pretty: bool) -> Seq<char> {
        match self {
            MessageView::Direct(bytes) => bytes_text(bytes, pretty),
            MessageView::Span(message) => span_text(message, pretty),
            MessageView::Metric(message) => metric_text(message, pretty),
            MessageView::LogRecord(message) => log_record_text(message, pretty),
            MessageView::ScopeSpans(message) => scope_spans_text(message, pretty),
            MessageView::ScopeMetrics(message) => scope_metrics_text(message, pretty),
            MessageView::ScopeLogs(message) => scope_logs_text(message, pretty),
            MessageView::Resource(message) => resource_text(message, pretty),
            MessageView::ResourceSpans(message) => resource_spans_text(message, pretty),
            MessageView::ResourceMetrics(message) => resource_metrics_text(message, pretty),
            MessageView::ResourceLogs(message) => resource_logs_text(message, pretty),
            MessageView::ExportTraceServiceRequest(message) => trace_request_text(message, pretty),
            MessageView::ExportMetricsServiceRequest(message) =>
                metrics_request_text(message, pretty),
            MessageView::ExportLogsServiceRequest(message) => logs_request_text(message, pretty),
        }
    }
}

impl DecodedMessage {
    /// The shape of this message.
    pub fn shape(&self) -> (shape: DecodeType)
        ensures
            shape == self@.shape(),
    {
        match self {
            DecodedMessage::Direct(_) => DecodeType::Direct,
            DecodedMessage::Span(_) => DecodeType::Span,
            DecodedMessage::Metric(_) => DecodeType::Metric,
            DecodedMessage::LogRecord(_) => DecodeType::LogRecord,
            DecodedMessage::ScopeSpans(_) => DecodeType::ScopeSpans,
            DecodedMessage::ScopeMetrics(_) => DecodeType::ScopeMetrics,
            DecodedMessage::ScopeLogs(_) => DecodeType::ScopeLogs,
            DecodedMessage::Resource(_) => DecodeType::Resource,
            DecodedMessage::ResourceSpans(_) => DecodeType::ResourceSpans,
            DecodedMessage::ResourceMetrics(_) => DecodeType::ResourceMetrics,
            DecodedMessage::ResourceLogs(_) => DecodeType::ResourceLogs,
            DecodedMessage::ExportTraceServiceRequest(_) => DecodeType::ExportTraceServiceRequest,
            DecodedMessage::ExportMetricsServiceRequest(_) =>
                DecodeType::ExportMetricsServiceRequest,
            DecodedMessage::ExportLogsServiceRequest(_) => DecodeType::ExportLogsServiceRequest,
        }
    }

    /// Renders the message: on one line, or indented over several lines if
    /// `pretty` is set. Rendering cannot fail.
    pub fn render(&self, pretty: bool) -> (text: String)
        ensures
            text@ == self@.text(pretty),
    {
        if pretty {
            match self {
                DecodedMessage::Direct(bytes) => bytes_pretty(bytes.as_slice()),
                DecodedMessage::Span(message) => span_pretty(message),
                DecodedMessage::Metric(message) => metric_pretty(message),
                DecodedMessage::LogRecord(message) => log_record_pretty(message),
                DecodedMessage::ScopeSpans(message) => scope_spans_pretty(message),
                DecodedMessage::ScopeMetrics(message) => scope_metrics_pretty(message),
                DecodedMessage::ScopeLogs(message) => scope_logs_pretty(message),
                DecodedMessage::Resource(message) => resource_pretty(message),
                DecodedMessage::ResourceSpans(message) => resource_spans_pretty(message),
                DecodedMessage::ResourceMetrics(message) => resource_metrics_pretty(message),
                DecodedMessage::ResourceLogs(message) => resource_logs_pretty(message),
                DecodedMessage::ExportTraceServiceRequest(message) =>
                    trace_request_pretty(message),
                DecodedMessage::ExportMetricsServiceRequest(message) =>
                    metrics_request_pretty(message),
                DecodedMessage::ExportLogsServiceRequest(message) => logs_request_pretty(message),
            }
        } else {
            match self {
                DecodedMessage::Direct(bytes) => bytes_compact(bytes.as_slice()),
                DecodedMessage::Span(message) => span_compact(message),
                DecodedMessage::Metric(message) => metric_compact(message),
                DecodedMessage::LogRecord(message) => log_record_compact(message),
                DecodedMessage::ScopeSpans(message) => scope_spans_compact(message),
                DecodedMessage::ScopeMetrics(message) => scope_metrics_compact(message),
                DecodedMessage::ScopeLogs(message) => scope_logs_compact(message),
                DecodedMessage::Resource(message) => resource_compact(message),
                DecodedMessage::ResourceSpans(message) => resource_spans_compact(message),
                DecodedMessage::ResourceMetrics(message) => resource_metrics_compact(message),
                DecodedMessage::ResourceLogs(message) => resource_logs_compact(message),
                DecodedMessage::ExportTraceServiceRequest(message) =>
                    trace_request_compact(message),
                DecodedMessage::ExportMetricsServiceRequest(message) =>
                    metrics_request_compact(message),
                DecodedMessage::ExportLogsServiceRequest(message) => logs_request_compact(message),
            }
        }
    }
}

} // verus!

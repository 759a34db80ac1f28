//! The dispatcher: reads a payload as the shape that was asked for.

use vstd::prelude::*;
use opentelemetry_proto::tonic::collector::logs::v1::ExportLogsServiceRequest;
use opentelemetry_proto::tonic::collector::metrics::v1::ExportMetricsServiceRequest;
use opentelemetry_proto::tonic::collector::trace::v1::ExportTraceServiceRequest;
use opentelemetry_proto::tonic::logs::v1::{LogRecord, ResourceLogs, ScopeLogs};
use opentelemetry_proto::tonic::metrics::v1::{Metric, ResourceMetrics, ScopeMetrics};
use opentelemetry_proto::tonic::resource::v1::Resource;
use opentelemetry_proto::tonic::trace::v1::{ResourceSpans, ScopeSpans, Span};
use crate::codec::{
    decode_error_message, decode_error_text,
    decode_span, span_decoding,
    decode_metric, metric_decoding,
    decode_log_record, log_record_decoding,
    decode_scope_spans, scope_spans_decoding,
    decode_scope_metrics, scope_metrics_decoding,
    decode_scope_logs, scope_logs_decoding,
    decode_resource, resource_decoding,
    decode_resource_spans, resource_spans_decoding,
    decode_resource_metrics, resource_metrics_decoding,
    decode_resource_logs, resource_logs_decoding,
    decode_trace_request, trace_request_decoding,
    decode_metrics_request, metrics_request_decoding,
    decode_logs_request, logs_request_decoding,
};
use crate::message::{DecodedMessage, MessageView};
use crate::shape::DecodeType;

verus! {

/// Why a payload could not be read as the requested shape.
#[derive(Debug, Clone)]
pub enum CodecError {
    /// The payload holds no byte at all. Under a message shape nothing is
    /// read from nothing: an empty payload is refused, not read as the
    /// message whose every field has its default.
    EmptyPayload,
    /// The codec refused the payload. The text is the codec's own.
    Malformed(String),
}

/// The value of a [`CodecError`].
pub enum CodecFault {
    EmptyPayload,
    Malformed(Seq<char>),
}

impl View for CodecError {
    type V = CodecFault;

    open spec fn view(&self) -> CodecFault {
        match self {
            CodecError::EmptyPayload => CodecFault::EmptyPayload,
            CodecError::Malformed(reason) => CodecFault::Malformed(reason@),
        }
    }
}

impl CodecFault {
    /// The words that report the fault.
    pub open spec fn text(self) -> Seq<char> {
        match self {
            CodecFault::EmptyPayload => "empty payload"@,
            CodecFault::Malformed(reason) => reason,
        }
    }
}

impl CodecError {
    /// The words that report the error: the codec's own where it refused the
    /// payload.
    pub fn message(&self) -> (text: String)
        ensures
            text@ == self@.text(),
    {
        match self {
            CodecError::EmptyPayload => "empty payload".to_owned(),
            CodecError::Malformed(reason) => reason.clone(),
        }
    }
}

/// What the codec made of a payload, as the dispatcher hands it on: the
/// message under its shape, or the codec's error by its text.
pub open spec fn accepted<M>(
    decoded: Result<M, prost::DecodeError>,
    wrap: spec_fn(M) -> MessageView,
) -> Result<MessageView, CodecFault> {
    match decoded {
        Ok(message) => Ok(wrap(message)),
        Err(error) => Err(CodecFault::Malformed(decode_error_text(error))),
    }
}

/// What reading `bytes` as `name` gives.
///
/// Under `Direct` the bytes themselves, whatever they are. Under a message
/// shape an empty payload is an error, and any other payload gives what the
/// codec of that shape makes of it.
pub open spec fn reading(name: DecodeType, bytes: Seq<u8>) -> Result<MessageView, CodecFault> {
    if name == DecodeType::Direct {
        Ok(MessageView::Direct(bytes))
    } else if bytes.len() == 0 {
        Err(CodecFault::EmptyPayload)
    } else {
        match name {
            DecodeType::Direct => Ok(MessageView::Direct(bytes)),
            DecodeType::Span => accepted(
                span_decoding(bytes),
                |message: Span| MessageView::Span(message),
            ),
            DecodeType::Metric => accepted(
                metric_decoding(bytes),
                |message: Metric| MessageView::Metric(message),
            ),
            DecodeType::LogRecord => accepted(
                log_record_decoding(bytes),
                |message: LogRecord| MessageView::LogRecord(message),
            ),
            DecodeType::ScopeSpans => accepted(
                scope_spans_decoding(bytes),
                |message: ScopeSpans| MessageView::ScopeSpans(message),
            ),
            DecodeType::ScopeMetrics => accepted(
                scope_metrics_decoding(bytes),
                |message: ScopeMetrics| MessageView::ScopeMetrics(message),
            ),
            DecodeType::ScopeLogs => accepted(
                scope_logs_decoding(bytes),
                |message: ScopeLogs| MessageView::ScopeLogs(message),
            ),
            DecodeType::Resource => accepted(
                resource_decoding(bytes),
                |message: Resource| MessageView::Resource(message),
            ),
            DecodeType::ResourceSpans => accepted(
                resource_spans_decoding(bytes),
                |message: ResourceSpans| MessageView::ResourceSpans(message),
            ),
            DecodeType::ResourceMetrics => accepted(
                resource_metrics_decoding(bytes),
                |message: ResourceMetrics| MessageView::ResourceMetrics(message),
            ),
            DecodeType::ResourceLogs => accepted(
                resource_logs_decoding(bytes),
                |message: ResourceLogs| MessageView::ResourceLogs(message),
            ),
            DecodeType::ExportTraceServiceRequest => accepted(
                trace_request_decoding(bytes),
                |message: ExportTraceServiceRequest|
                    MessageView::ExportTraceServiceRequest(message),
            ),
            DecodeType::ExportMetricsServiceRequest => accepted(
                metrics_request_decoding(bytes),
                |message: ExportMetricsServiceRequest|
                    MessageView::ExportMetricsServiceRequest(message),
            ),
            DecodeType::ExportLogsServiceRequest => accepted(
                logs_request_decoding(bytes),
                |message: ExportLogsServiceRequest|
                    MessageView::ExportLogsServiceRequest(message),
            ),
        }
    }
}

/// The text that reading `bytes` as `name` gives: that of the message read.
pub open spec fn reading_text(name: DecodeType, bytes: Seq<u8>, pretty: bool) -> Result<
    Seq<char>,
    CodecFault,
> {
    match reading(name, bytes) {
        Ok(message) => Ok(message.text(pretty)),
        Err(fault) => Err(fault),
    }
}

/// The error for a payload that the codec refused.
fn refused(error: prost::DecodeError) -> (refusal: CodecError)
    ensures
        refusal@ == CodecFault::Malformed(decode_error_text(error)),
{
    CodecError::Malformed(decode_error_message(&error))
}

/// Reads a payload as the shape `name`.
///
/// One case for each shape: `Direct` keeps the bytes and calls no codec, each
/// message shape calls the codec of its own message type. The message that
/// comes back has the shape that was asked for, and no part of a message
/// comes back from a payload that the codec refused.
pub fn decode(name: &DecodeType, payload: &[u8]) -> (outcome: Result<DecodedMessage, CodecError>)
    ensures
        match outcome {
            Ok(message) => reading(*name, payload@) == Ok::<MessageView, CodecFault>(message@),
            Err(error) => reading(*name, payload@) == Err::<MessageView, CodecFault>(error@),
        },
{
    if let DecodeType::Direct = name {
        return Ok(DecodedMessage::Direct(vstd::slice::slice_to_vec(payload)));
    }
    if payload.len() == 0 {
        return Err(CodecError::EmptyPayload);
    }
    match name {
        DecodeType::Direct => Ok(DecodedMessage::Direct(vstd::slice::slice_to_vec(payload))),
        DecodeType::Span => match decode_span(payload) {
            Ok(message) => Ok(DecodedMessage::Span(message)),
            Err(error) => Err(refused(error)),
        },
        DecodeType::Metric => match decode_metric(payload) {
            Ok(message) => Ok(DecodedMessage::Metric(message)),
            Err(error) => Err(refused(error)),
        },
        DecodeType::LogRecord => match decode_log_record(payload) {
            Ok(message) => Ok(DecodedMessage::LogRecord(message)),
            Err(error) => Err(refused(error)),
        },
        DecodeType::ScopeSpans => match decode_scope_spans(payload) {
            Ok(message) => Ok(DecodedMessage::ScopeSpans(message)),
            Err(error) => Err(refused(error)),
        },
        DecodeType::ScopeMetrics => match decode_scope_metrics(payload) {
            Ok(message) => Ok(DecodedMessage::ScopeMetrics(message)),
            Err(error) => Err(refused(error)),
        },
        DecodeType::ScopeLogs => match decode_scope_logs(payload) {
            Ok(message) => Ok(DecodedMessage::ScopeLogs(message)),
            Err(error) => Err(refused(error)),
        },
        DecodeType::Resource => match decode_resource(payload) {
            Ok(message) => Ok(DecodedMessage::Resource(message)),
            Err(error) => Err(refused(error)),
        },
        DecodeType::ResourceSpans => match decode_resource_spans(payload) {
            Ok(message) => Ok(DecodedMessage::ResourceSpans(message)),
            Err(error) => Err(refused(error)),
        },
        DecodeType::ResourceMetrics => match decode_resource_metrics(payload) {
            Ok(message) => Ok(DecodedMessage::ResourceMetrics(message)),
            Err(error) => Err(refused(error)),
        },
        DecodeType::ResourceLogs => match decode_resource_logs(payload) {
            Ok(message) => Ok(DecodedMessage::ResourceLogs(message)),
            Err(error) => Err(refused(error)),
        },
        DecodeType::ExportTraceServiceRequest => match decode_trace_request(payload) {
            Ok(message) => Ok(DecodedMessage::ExportTraceServiceRequest(message)),
            Err(error) => Err(refused(error)),
        },
        DecodeType::ExportMetricsServiceRequest => match decode_metrics_request(payload) {
            Ok(message) => Ok(DecodedMessage::ExportMetricsServiceRequest(message)),
            Err(error) => Err(refused(error)),
        },
        DecodeType::ExportLogsServiceRequest => match decode_logs_request(payload) {
            Ok(message) => Ok(DecodedMessage::ExportLogsServiceRequest(message)),
            Err(error) => Err(refused(error)),
        },
    }
}

/// What reading `bytes` as a request that exports spans gives.
pub open spec fn export_request_reading(bytes: Seq<u8>) -> Result<
    ExportTraceServiceRequest,
    CodecFault,
> {
    if bytes.len() == 0 {
        Err(CodecFault::EmptyPayload)
    } else {
        match trace_request_decoding(bytes) {
            Ok(request) => Ok(request),
            Err(error) => Err(CodecFault::Malformed(decode_error_text(error))),
        }
    }
}

/// Reads a payload as a request that exports spans, and hands the request
/// itself back.
pub fn decode_export_request(payload: &[u8]) -> (outcome: Result<
    ExportTraceServiceRequest,
    CodecError,
>)
    ensures
        match outcome {
            Ok(request) => export_request_reading(payload@) == Ok::<
                ExportTraceServiceRequest,
                CodecFault,
            >(request),
            Err(error) => export_request_reading(payload@) == Err::<
                ExportTraceServiceRequest,
                CodecFault,
            >(error@),
        },
{
    if payload.len() == 0 {
        return Err(CodecError::EmptyPayload);
    }
    match decode_trace_request(payload) {
        Ok(request) => Ok(request),
        Err(error) => Err(refused(error)),
    }
}

/// Reads a payload as the shape `name` and renders the message: on one line,
/// or indented over several lines if `pretty` is set.
pub fn decode_struct(name: &DecodeType, payload: &[u8], pretty: bool) -> (outcome: Result<
    String,
    CodecError,
>)
    ensures
        match outcome {
            Ok(text) => reading_text(*name, payload@, pretty) == Ok::<Seq<char>, CodecFault>(text@),
            Err(error) => reading_text(*name, payload@, pretty) == Err::<Seq<char>, CodecFault>(
                error@,
            ),
        },
{
    match decode(name, payload) {
        Ok(message) => Ok(message.render(pretty)),
        Err(error) => Err(error),
    }
}

/// Reading is decided for every shape and every payload, in one of three
/// ways. A message comes back, and it has the shape that was asked for. Or
/// the payload is empty under a message shape. Or the payload is not empty
/// and the codec of a message shape refused it.
pub proof fn lemma_reading_is_total(name: DecodeType, bytes: Seq<u8>)
    ensures
        match reading(name, bytes) {
            Ok(message) => {
                &&& message.shape() == name
                &&& bytes.len() > 0 || name == DecodeType::Direct
            },
            Err(CodecFault::EmptyPayload) => name != DecodeType::Direct && bytes.len() == 0,
            Err(CodecFault::Malformed(_)) => name != DecodeType::Direct && bytes.len() > 0,
        },
{
}

/// Under a message shape an empty payload is refused: no message comes back
/// from it, not even the one whose every field has its default.
pub proof fn lemma_empty_payload_is_refused(name: DecodeType, pretty: bool)
    requires
        name != DecodeType::Direct,
    ensures
        reading(name, Seq::<u8>::empty()) == Err::<MessageView, CodecFault>(
            CodecFault::EmptyPayload,
        ),
        reading_text(name, Seq::<u8>::empty(), pretty) == Err::<Seq<char>, CodecFault>(
            CodecFault::EmptyPayload,
        ),
{
}

/// Under `Direct` every payload is read, as itself.
pub proof fn lemma_direct_reads_anything(bytes: Seq<u8>, pretty: bool)
    ensures
        reading(DecodeType::Direct, bytes) == Ok::<MessageView, CodecFault>(
            MessageView::Direct(bytes),
        ),
        reading_text(DecodeType::Direct, bytes, pretty) is Ok,
{
}

/// A request that exports spans is read alone as the dispatcher reads it.
pub proof fn lemma_export_request_is_dispatched(bytes: Seq<u8>)
    ensures
        reading(DecodeType::ExportTraceServiceRequest, bytes) == match export_request_reading(
            bytes,
        ) {
            Ok(request) => Ok::<MessageView, CodecFault>(
                MessageView::ExportTraceServiceRequest(request),
            ),
            Err(fault) => Err::<MessageView, CodecFault>(fault),
        },
{
}

} // verus!

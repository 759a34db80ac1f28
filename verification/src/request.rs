//! The trace identifiers inside a request that exports spans.
//!
//! An `ExportTraceServiceRequest` holds resources, a resource holds
//! instrumentation scopes, a scope holds spans, and a span has a trace
//! identifier. The types belong to `opentelemetry-proto`; their fields are
//! public there and are read here through four accessors that are not proved.

use vstd::prelude::*;
use opentelemetry_proto::tonic::collector::trace::v1::ExportTraceServiceRequest;

verus! {

/// The trace identifiers that a request holds, by resource, scope and span:
/// `trace_ids(request)[r][s][k]` is the field `trace_id` of
/// `request.resource_spans[r].scope_spans[s].spans[k]`.
pub uninterp spec fn trace_ids(request: ExportTraceServiceRequest) -> Seq<Seq<Seq<Seq<u8>>>>;

/// Whether a request has a span at this place.
pub open spec fn has_span(
    request: ExportTraceServiceRequest,
    resource: int,
    scope: int,
    span: int,
) -> bool {
    &&& 0 <= resource < trace_ids(request).len()
    &&& 0 <= scope < trace_ids(request)[resource].len()
    &&& 0 <= span < trace_ids(request)[resource][scope].len()
}

/// The length of `request.resource_spans`.
#[verifier::external_body]
pub(crate) fn resource_count(request: &ExportTraceServiceRequest) -> (count: usize)
    ensures
        count == trace_ids(*request).len(),
{
    request.resource_spans.len()
}

/// The length of `request.resource_spans[resource].scope_spans`.
#[verifier::external_body]
pub(crate) fn scope_count(request: &ExportTraceServiceRequest, resource: usize) -> (count: usize)
    requires
        resource < trace_ids(*request).len(),
    ensures
        count == trace_ids(*request)[resource as int].len(),
{
    request.resource_spans[resource].scope_spans.len()
}

/// The length of `request.resource_spans[resource].scope_spans[scope].spans`.
#[verifier::external_body]
pub(crate) fn span_count(
    request: &ExportTraceServiceRequest,
    resource: usize,
    scope: usize,
) -> (count: usize)
    requires
        resource < trace_ids(*request).len(),
        scope < trace_ids(*request)[resource as int].len(),
    ensures
        count == trace_ids(*request)[resource as int][scope as int].len(),
{
    request.resource_spans[resource].scope_spans[scope].spans.len()
}

/// The field `trace_id` of the span at this place.
#[verifier::external_body]
pub(crate) fn trace_id_at(
    request: &ExportTraceServiceRequest,
    resource: usize,
    scope: usize,
    span: usize,
) -> (id: &[u8])
    requires
        has_span(*request, resource as int, scope as int, span as int),
    ensures
        id@ == trace_ids(*request)[resource as int][scope as int][span as int],
{
    request.resource_spans[resource].scope_spans[scope].spans[span].trace_id.as_slice()
}

} // verus!

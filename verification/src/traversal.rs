//! The order of the walk through a request, proved.
//!
//! The walk lists the spans of a request resource by resource, scope by
//! scope, span by span. Here that is stated place by place: where in the walk
//! a span stands, that spans come in the order of their places, and that the
//! walk holds nothing but the spans of the request, each once.

use vstd::prelude::*;
use vstd::seq_lib::lemma_flatten_concat;
use opentelemetry_proto::tonic::collector::trace::v1::ExportTraceServiceRequest;
use crate::cmd_search::{in_order, texts, walk, Search, SearchReport};
use crate::hexadecimal::{lemma_lower_hex_is_injective, lower_hex};
use crate::request::{has_span, trace_ids};

verus! {

/// How many items stand before item `j` of part `i` when the parts are laid
/// end to end.
pub open spec fn items_before<A>(parts: Seq<Seq<A>>, i: int, j: int) -> int {
    parts.take(i).flatten().len() + j
}

/// How many spans the walk passes before it comes to span `span` of scope
/// `scope` of resource `resource`: all spans of the resources before, all
/// spans of the scopes before in the same resource, and the spans before in
/// the same scope.
pub open spec fn spans_before(
    tree: Seq<Seq<Seq<Seq<u8>>>>,
    resource: int,
    scope: int,
    span: int,
) -> int {
    tree.take(resource).flatten().flatten().len() + tree[resource].take(scope).flatten().len()
        + span
}

/// Whether the first place comes before the second: in an earlier resource,
/// or in the same resource in an earlier scope, or in the same scope earlier.
pub open spec fn comes_before(r1: int, s1: int, k1: int, r2: int, s2: int, k2: int) -> bool {
    ||| r1 < r2
    ||| r1 == r2 && s1 < s2
    ||| r1 == r2 && s1 == s2 && k1 < k2
}

/// Laid end to end, the first `i + 1` parts are the first `i` parts and then
/// part `i`.
proof fn lemma_take_one_more<A>(parts: Seq<Seq<A>>, i: int)
    requires
        0 <= i < parts.len(),
    ensures
        parts.take(i + 1).flatten() == parts.take(i).flatten() + parts[i],
{
    assert(parts.take(i + 1) =~= parts.take(i).push(parts[i]));
    parts.take(i).lemma_flatten_push(parts[i]);
}

/// Laid end to end, fewer parts give fewer items.
proof fn lemma_take_grows<A>(parts: Seq<Seq<A>>, i: int, j: int)
    requires
        0 <= i <= j <= parts.len(),
    ensures
        parts.take(i).flatten().len() <= parts.take(j).flatten().len(),
    decreases j - i,
{
    if i < j {
        lemma_take_one_more(parts, j - 1);
        lemma_take_grows(parts, i, j - 1);
    }
}

/// Item `j` of part `i` stands where the items before it end.
proof fn lemma_item_place<A>(parts: Seq<Seq<A>>, i: int, j: int)
    requires
        0 <= i < parts.len(),
        0 <= j < parts[i].len(),
    ensures
        0 <= items_before(parts, i, j) < parts.flatten().len(),
        parts.flatten()[items_before(parts, i, j)] == parts[i][j],
        parts.flatten().take(items_before(parts, i, j)) == parts.take(i).flatten() + parts[i].take(
            j,
        ),
{
    lemma_take_one_more(parts, i);
    assert(parts =~= parts.take(i + 1) + parts.skip(i + 1));
    lemma_flatten_concat(parts.take(i + 1), parts.skip(i + 1));
    assert(parts.flatten() =~= parts.take(i).flatten() + parts[i] + parts.skip(i + 1).flatten());
    assert(parts.flatten().take(items_before(parts, i, j)) =~= parts.take(i).flatten()
        + parts[i].take(j));
}

/// Every item of the parts laid end to end is an item of one part.
proof fn lemma_item_origin<A>(parts: Seq<Seq<A>>, n: int) -> (place: (int, int))
    requires
        0 <= n < parts.flatten().len(),
    ensures
        0 <= place.0 < parts.len(),
        0 <= place.1 < parts[place.0].len(),
        items_before(parts, place.0, place.1) == n,
    decreases parts.len(),
{
    if parts.len() == 0 {
        assert(parts.flatten().len() == 0);
        (0, 0)
    } else {
        let last = parts.len() - 1;
        lemma_take_one_more(parts, last);
        assert(parts.take(last + 1) =~= parts);
        let front = parts.take(last);
        if n < front.flatten().len() {
            let place = lemma_item_origin(front, n);
            assert(front.take(place.0) =~= parts.take(place.0));
            place
        } else {
            (last, n - front.flatten().len())
        }
    }
}

/// A span stands in the walk where the spans before it end, written in
/// hexadecimal.
pub proof fn lemma_walk_place(
    request: ExportTraceServiceRequest,
    resource: int,
    scope: int,
    span: int,
)
    requires
        has_span(request, resource, scope, span),
    ensures
        0 <= spans_before(trace_ids(request), resource, scope, span) < walk(request).len(),
        walk(request)[spans_before(trace_ids(request), resource, scope, span)] == lower_hex(
            trace_ids(request)[resource][scope][span],
        ),
{
    let tree = trace_ids(request);
    lemma_place_in_order(tree, resource, scope, span);
}

/// The same, of the identifiers themselves.
proof fn lemma_place_in_order(tree: Seq<Seq<Seq<Seq<u8>>>>, resource: int, scope: int, span: int)
    requires
        0 <= resource < tree.len(),
        0 <= scope < tree[resource].len(),
        0 <= span < tree[resource][scope].len(),
    ensures
        0 <= spans_before(tree, resource, scope, span) < in_order(tree).len(),
        in_order(tree)[spans_before(tree, resource, scope, span)] == tree[resource][scope][span],
        spans_before(tree, resource, scope, span) == items_before(
            tree.flatten(),
            items_before(tree, resource, scope),
            span,
        ),
        0 <= items_before(tree, resource, scope) < tree.flatten().len(),
        tree.flatten()[items_before(tree, resource, scope)] == tree[resource][scope],
{
    let scopes = tree.flatten();
    let at = items_before(tree, resource, scope);
    lemma_item_place(tree, resource, scope);
    lemma_flatten_concat(tree.take(resource).flatten(), tree[resource].take(scope));
    lemma_item_place(scopes, at, span);
}

/// The walk passes spans in the order of their places.
pub proof fn lemma_walk_order(
    request: ExportTraceServiceRequest,
    r1: int,
    s1: int,
    k1: int,
    r2: int,
    s2: int,
    k2: int,
)
    requires
        has_span(request, r1, s1, k1),
        has_span(request, r2, s2, k2),
        comes_before(r1, s1, k1, r2, s2, k2),
    ensures
        spans_before(trace_ids(request), r1, s1, k1) < spans_before(trace_ids(request), r2, s2, k2),
{
    let tree = trace_ids(request);
    let scopes = tree.flatten();
    let here = items_before(tree, r1, s1);
    let there = items_before(tree, r2, s2);
    lemma_place_in_order(tree, r1, s1, k1);
    lemma_place_in_order(tree, r2, s2, k2);
    if r1 < r2 {
        lemma_take_one_more(tree, r1);
        lemma_take_grows(tree, r1 + 1, r2);
        assert(here < there);
    }
    if here < there {
        lemma_take_one_more(scopes, here);
        lemma_take_grows(scopes, here + 1, there);
    }
}

/// The walk passes nothing but spans of the request: whatever stands in it
/// stands there for a span at some place.
pub proof fn lemma_walk_origin(request: ExportTraceServiceRequest, n: int) -> (place: (
    int,
    int,
    int,
))
    requires
        0 <= n < walk(request).len(),
    ensures
        has_span(request, place.0, place.1, place.2),
        spans_before(trace_ids(request), place.0, place.1, place.2) == n,
        walk(request)[n] == lower_hex(trace_ids(request)[place.0][place.1][place.2]),
{
    let tree = trace_ids(request);
    let scopes = tree.flatten();
    let (at, span) = lemma_item_origin(scopes, n);
    let (resource, scope) = lemma_item_origin(tree, at);
    lemma_item_place(tree, resource, scope);
    lemma_place_in_order(tree, resource, scope, span);
    (resource, scope, span)
}

/// No span is passed twice: two places with the same number in the walk are
/// the same place.
pub proof fn lemma_walk_places_differ(
    request: ExportTraceServiceRequest,
    r1: int,
    s1: int,
    k1: int,
    r2: int,
    s2: int,
    k2: int,
)
    requires
        has_span(request, r1, s1, k1),
        has_span(request, r2, s2, k2),
        spans_before(trace_ids(request), r1, s1, k1) == spans_before(
            trace_ids(request),
            r2,
            s2,
            k2,
        ),
    ensures
        r1 == r2,
        s1 == s2,
        k1 == k2,
{
    if comes_before(r1, s1, k1, r2, s2, k2) {
        lemma_walk_order(request, r1, s1, k1, r2, s2, k2);
    }
    if comes_before(r2, s2, k2, r1, s1, k1) {
        lemma_walk_order(request, r2, s2, k2, r1, s1, k1);
    }
}

/// A trace is found in a request if and only if some span of the request has
/// an identifier that is written as the query is.
pub proof fn lemma_found_means_some_span(request: ExportTraceServiceRequest, query: Seq<char>)
    ensures
        walk(request).contains(query) <==> exists|r: int, s: int, k: int|
            has_span(request, r, s, k) && lower_hex(#[trigger] trace_ids(request)[r][s][k])
                == query,
{
    let tree = trace_ids(request);
    if walk(request).contains(query) {
        let n = choose|n: int| 0 <= n < walk(request).len() && walk(request)[n] == query;
        let place = lemma_walk_origin(request, n);
        assert(has_span(request, place.0, place.1, place.2) && lower_hex(
            tree[place.0][place.1][place.2],
        ) == query);
    }
    if exists|r: int, s: int, k: int|
        has_span(request, r, s, k) && lower_hex(#[trigger] tree[r][s][k]) == query {
        let (r, s, k) = choose|r: int, s: int, k: int|
            has_span(request, r, s, k) && lower_hex(#[trigger] tree[r][s][k]) == query;
        lemma_walk_place(request, r, s, k);
        assert(walk(request)[spans_before(tree, r, s, k)] == query);
    }
}

/// A trace is found by its identifier if and only if some span of the
/// request has that identifier, byte for byte: looking for the identifier as
/// it is written in hexadecimal finds that trace and no other.
pub proof fn lemma_found_by_identifier(request: ExportTraceServiceRequest, id: Seq<u8>)
    ensures
        walk(request).contains(lower_hex(id)) <==> exists|r: int, s: int, k: int|
            has_span(request, r, s, k) && #[trigger] trace_ids(request)[r][s][k] == id,
{
    let tree = trace_ids(request);
    lemma_found_means_some_span(request, lower_hex(id));
    if walk(request).contains(lower_hex(id)) {
        let (r, s, k) = choose|r: int, s: int, k: int|
            has_span(request, r, s, k) && lower_hex(#[trigger] tree[r][s][k]) == lower_hex(id);
        lemma_lower_hex_is_injective(tree[r][s][k], id);
        assert(has_span(request, r, s, k) && tree[r][s][k] == id);
    }
    if exists|r: int, s: int, k: int| has_span(request, r, s, k) && #[trigger] tree[r][s][k] == id {
        let (r, s, k) = choose|r: int, s: int, k: int|
            has_span(request, r, s, k) && #[trigger] tree[r][s][k] == id;
        assert(has_span(request, r, s, k) && lower_hex(tree[r][s][k]) == lower_hex(id));
    }
}

/// A search that reports what it passes reports every span of the request,
/// in the order of the walk, whether or not the trace is found and wherever
/// it is found.
pub proof fn lemma_every_span_is_reported(
    report: SearchReport,
    request: ExportTraceServiceRequest,
    search: Search,
)
    requires
        report.answers(request, &search),
        search.trace_id is Some,
        search.verbose,
    ensures
        texts(report.visited@) == walk(request),
        report.visited@.len() == in_order(trace_ids(request)).len(),
        forall|r: int, s: int, k: int|
            has_span(request, r, s, k) ==> report.visited@[#[trigger] spans_before(
                trace_ids(request),
                r,
                s,
                k,
            )]@ == lower_hex(trace_ids(request)[r][s][k]),
{
    assert forall|r: int, s: int, k: int| has_span(request, r, s, k) implies report.visited@[
        #[trigger] spans_before(trace_ids(request), r, s, k)]@ == lower_hex(
        trace_ids(request)[r][s][k],
    ) by {
        lemma_walk_place(request, r, s, k);
        let n = spans_before(trace_ids(request), r, s, k);
        assert(texts(report.visited@)[n] == report.visited@[n]@);
    }
}

/// A request is shown if and only if one of its spans has an identifier that
/// is written as the query is; and it is shown whole.
pub proof fn lemma_shown_means_some_span(
    report: SearchReport,
    request: ExportTraceServiceRequest,
    search: Search,
)
    requires
        report.answers(request, &search),
        search.trace_id is Some,
    ensures
        report.output is Some <==> exists|r: int, s: int, k: int|
            has_span(request, r, s, k) && lower_hex(#[trigger] trace_ids(request)[r][s][k])
                == search.trace_id->0@,
        report.output is Some <==> report.found,
{
    lemma_found_means_some_span(request, search.trace_id->0@);
}

} // verus!

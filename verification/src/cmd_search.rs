//! Looking for a trace in requests that export spans.

use vstd::prelude::*;
use opentelemetry_proto::tonic::collector::trace::v1::ExportTraceServiceRequest;
use crate::decode::{decode_export_request, export_request_reading};
use crate::hexadecimal::{encode_lower_hex, lower_hex};
use crate::quarantine::{is_quarantine_name, Quarantine, RecordError, RecordFault, Rejected};
use crate::rendering::{trace_request_compact, trace_request_pretty, trace_request_text};
use crate::request::{resource_count, scope_count, span_count, trace_id_at, trace_ids};
use crate::stream::{decode_line, line_record};
use crate::text::same_text;

verus! {

/// What to search, and for what.
#[derive(Debug, Clone)]
pub struct Search {
    /// The file to read, or `-` for the standard input.
    pub input: String,
    /// The trace to look for: its identifier in lower-case hexadecimal.
    /// Without it nothing is looked for and nothing is found.
    pub trace_id: Option<String>,
    /// Whether every identifier that is passed is reported.
    pub verbose: bool,
    /// Whether a request that is found is shown indented.
    pub pretty: bool,
}

/// What the search of one request gave.
#[derive(Debug, Clone)]
pub struct SearchReport {
    /// The identifiers that were passed, in the order of the walk, if they
    /// are to be reported; else nothing.
    pub visited: Vec<String>,
    /// Whether a span of the request belongs to the trace.
    pub found: bool,
    /// The whole request as text, if the trace was found in it.
    pub output: Option<String>,
}

/// The trace identifiers of a request in the order of the walk: resource by
/// resource, within a resource scope by scope, within a scope span by span.
pub open spec fn in_order(ids: Seq<Seq<Seq<Seq<u8>>>>) -> Seq<Seq<u8>> {
    ids.flatten().flatten()
}

/// Each identifier in lower-case hexadecimal.
pub open spec fn written(ids: Seq<Seq<u8>>) -> Seq<Seq<char>> {
    ids.map_values(|id: Seq<u8>| lower_hex(id))
}

/// What the walk through a request passes: the trace identifier of every
/// span, in hexadecimal, in the order of the walk.
pub open spec fn walk(request: ExportTraceServiceRequest) -> Seq<Seq<char>> {
    written(in_order(trace_ids(request)))
}

/// The characters of each string.
pub open spec fn texts(lines: Seq<String>) -> Seq<Seq<char>> {
    lines.map_values(|line: String| line@)
}

impl SearchReport {
    /// Whether this is the report that a request and a search call for.
    ///
    /// Without a trace to look for, nothing is passed, found or shown.
    /// With one, every span is passed whether or not it matches; the trace is
    /// found if the identifier of some span is written exactly as the query
    /// is; and the request is shown, whole and once, if and only if the trace
    /// is found.
    pub open spec fn answers(&self, request: ExportTraceServiceRequest, search: &Search) -> bool {
        match search.trace_id {
            None => {
                &&& self.visited@.len() == 0
                &&& !self.found
                &&& self.output is None
            },
            Some(query) => {
                &&& texts(self.visited@) == if search.verbose {
                    walk(request)
                } else {
                    Seq::<Seq<char>>::empty()
                }
                &&& self.found == walk(request).contains(query@)
                &&& match self.output {
                    Some(text) => self.found && text@ == trace_request_text(request, search.pretty),
                    None => !self.found,
                }
            },
        }
    }
}

/// The walk through a request: the trace identifier of every span, written
/// in lower-case hexadecimal, resource by resource, scope by scope, span by
/// span.
pub fn visit(request: &ExportTraceServiceRequest) -> (passed: Vec<String>)
    ensures
        texts(passed@) == walk(*request),
{
    let ghost tree = trace_ids(*request);
    let mut passed: Vec<String> = Vec::new();
    let resources = resource_count(request);
    let mut r: usize = 0;
    assert(tree.take(0) =~= Seq::<Seq<Seq<Seq<u8>>>>::empty());
    assert(texts(passed@) =~= written(tree.take(0).flatten().flatten()));
    while r < resources
        invariant
            tree == trace_ids(*request),
            resources == tree.len(),
            r <= resources,
            texts(passed@) == written(tree.take(r as int).flatten().flatten()),
        decreases resources - r,
    {
        let ghost before = tree.take(r as int).flatten();
        let scopes = scope_count(request, r);
        let mut s: usize = 0;
        assert(before + tree[r as int].take(0) =~= before);
        while s < scopes
            invariant
                tree == trace_ids(*request),
                r < tree.len(),
                before == tree.take(r as int).flatten(),
                scopes == tree[r as int].len(),
                s <= scopes,
                texts(passed@) == written((before + tree[r as int].take(s as int)).flatten()),
            decreases scopes - s,
        {
            let ghost earlier = (before + tree[r as int].take(s as int)).flatten();
            let spans = span_count(request, r, s);
            let mut k: usize = 0;
            assert(earlier + tree[r as int][s as int].take(0) =~= earlier);
            while k < spans
                invariant
                    tree == trace_ids(*request),
                    r < tree.len(),
                    s < tree[r as int].len(),
                    spans == tree[r as int][s as int].len(),
                    k <= spans,
                    texts(passed@) == written(earlier + tree[r as int][s as int].take(k as int)),
                decreases spans - k,
            {
                let id = trace_id_at(request, r, s, k);
                let ghost so_far = passed@;
                passed.push(encode_lower_hex(id));
                proof {
                    let here = tree[r as int][s as int];
                    assert(here.take(k + 1) =~= here.take(k as int).push(here[k as int]));
                    assert(earlier + here.take(k + 1) =~= (earlier + here.take(k as int)).push(
                        here[k as int],
                    ));
                    assert(texts(passed@) =~= texts(so_far).push(lower_hex(here[k as int])));
                    assert(written(earlier + here.take(k + 1)) =~= written(
                        earlier + here.take(k as int),
                    ).push(lower_hex(here[k as int])));
                }
                k += 1;
            }
            proof {
                let scopes_here = tree[r as int];
                let here = scopes_here[s as int];
                assert(here.take(spans as int) =~= here);
                assert(before + scopes_here.take(s + 1) =~= (before + scopes_here.take(
                    s as int,
                )).push(here));
                (before + scopes_here.take(s as int)).lemma_flatten_push(here);
            }
            s += 1;
        }
        proof {
            let scopes_here = tree[r as int];
            assert(scopes_here.take(scopes as int) =~= scopes_here);
            assert(tree.take(r + 1) =~= tree.take(r as int).push(scopes_here));
            tree.take(r as int).lemma_flatten_push(scopes_here);
        }
        r += 1;
    }
    assert(tree.take(resources as int) =~= tree);
    passed
}

/// Whether one of the lines is the query, letter for letter.
pub fn holds(lines: &Vec<String>, query: &str) -> (found: bool)
    ensures
        found == texts(lines@).contains(query@),
{
    let mut i: usize = 0;
    while i < lines.len()
        invariant
            i <= lines.len(),
            forall|j: int| 0 <= j < i ==> texts(lines@)[j] != query@,
        decreases lines.len() - i,
    {
        if same_text(lines[i].as_str(), query) {
            assert(texts(lines@)[i as int] == query@);
            return true;
        }
        i += 1;
    }
    false
}

/// Searches one request.
///
/// The walk passes every span of the request, in order, and compares its
/// trace identifier, written in lower-case hexadecimal, with the query. A
/// request in which the trace is found is shown whole; one in which it is not
/// found is passed over in silence, which is no error.
pub fn search_request(request: &ExportTraceServiceRequest, search: &Search) -> (report:
    SearchReport)
    ensures
        report.answers(*request, search),
{
    match &search.trace_id {
        None => SearchReport { visited: Vec::new(), found: false, output: None },
        Some(query) => {
            let passed = visit(request);
            let found = holds(&passed, query.as_str());
            let output = if !found {
                None
            } else if search.pretty {
                Some(trace_request_pretty(request))
            } else {
                Some(trace_request_compact(request))
            };
            let visited = if search.verbose {
                passed
            } else {
                Vec::new()
            };
            assert(texts(Seq::<String>::empty()) =~= Seq::<Seq<char>>::empty());
            SearchReport { visited, found, output }
        },
    }
}

/// What became of one line of a search.
#[derive(Debug, Clone)]
pub enum SearchOutcome {
    /// The line held a request, and this is what the search of it gave.
    Reported(SearchReport),
    /// The line was refused and is to be set aside.
    Quarantined(Quarantine),
}

/// The request that a line carries: what its base64 stands for, read as a
/// request that exports spans. A line that fails at either step is refused,
/// as a line of any stream is.
pub open spec fn line_request(line: Seq<char>) -> Result<
    ExportTraceServiceRequest,
    (RecordFault, Seq<u8>),
> {
    match line_record(line) {
        Ok(bytes) => match export_request_reading(bytes) {
            Ok(request) => Ok(request),
            Err(fault) => Err((RecordFault::Codec(fault), bytes)),
        },
        Err(refusal) => Err(refusal),
    }
}

/// Reads the request that a line carries.
pub fn read_request(line: &str) -> (outcome: Result<ExportTraceServiceRequest, Rejected>)
    ensures
        match outcome {
            Ok(request) => line_request(line@) == Ok::<
                ExportTraceServiceRequest,
                (RecordFault, Seq<u8>),
            >(request),
            Err(rejected) => line_request(line@) == Err::<
                ExportTraceServiceRequest,
                (RecordFault, Seq<u8>),
            >((rejected.error@, rejected.bytes@)),
        },
{
    match decode_line(line) {
        Ok(bytes) => match decode_export_request(bytes.as_slice()) {
            Ok(request) => Ok(request),
            Err(error) => Err(Rejected { error: RecordError::Codec(error), bytes }),
        },
        Err(rejected) => Err(rejected),
    }
}

/// Handles one line of a search: reads the request that the line carries and
/// searches it. Each line stands alone: nothing of it reaches the next.
///
/// A line that holds no request is quarantined as a line of any stream is,
/// and the search goes on.
pub fn process(payload: String, search: &Search) -> (outcome: SearchOutcome)
    ensures
        match outcome {
            SearchOutcome::Reported(report) => {
                &&& line_request(payload@) is Ok
                &&& report.answers(line_request(payload@)->Ok_0, search)
            },
            SearchOutcome::Quarantined(quarantine) => {
                &&& line_request(payload@) == Err::<
                    ExportTraceServiceRequest,
                    (RecordFault, Seq<u8>),
                >((quarantine.error@, quarantine.bytes@))
                &&& is_quarantine_name(quarantine.file_name@)
            },
        },
{
    match read_request(payload.as_str()) {
        Ok(request) => SearchOutcome::Reported(search_request(&request, search)),
        Err(rejected) => SearchOutcome::Quarantined(rejected.quarantined()),
    }
}

} // verus!

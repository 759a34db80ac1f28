//! What the report commands decide before anything is sent.
//!
//! Sending telemetry is the work of an exporter that the caller drives. What
//! is decided here is where it is sent, which transport carries it, which
//! instrument records a metric, and which values it records.

use vstd::prelude::*;
use vstd::string::StringExecFns;
use crate::decimal::{decimal, parse_signed, parse_unsigned, signed_of, to_decimal, unsigned_of};
use crate::otk_error::{OTKError, OTKFault};
use crate::text::same_text;

verus! {

/// The protocol that a report is sent by.
#[derive(Debug, Clone, Copy, PartialEq, Eq, Structural)]
pub enum Protocol {
    Grpc,
    Http,
    HttpJson,
}

/// The kind of telemetry that a report carries.
#[derive(Debug, Clone, Copy, PartialEq, Eq, Structural)]
pub enum Signal {
    Trace,
    Metric,
    Log,
}

/// The transport that carries a report.
#[derive(Debug, Clone, Copy, PartialEq, Eq, Structural)]
pub enum Transport {
    Grpc,
    Http,
}

impl Protocol {
    /// The name of a protocol.
    pub open spec fn name_text(self) -> Seq<char> {
        match self {
            Protocol::Grpc => "grpc"@,
            Protocol::Http => "http"@,
            Protocol::HttpJson => "http_json"@,
        }
    }

    /// The protocol that a text selects: each has its name and a short form.
    pub open spec fn named(text: Seq<char>) -> Option<Protocol> {
        if text == "grpc"@ || text == "g"@ {
            Some(Protocol::Grpc)
        } else if text == "http"@ || text == "h"@ {
            Some(Protocol::Http)
        } else if text == "http_json"@ || text == "hj"@ {
            Some(Protocol::HttpJson)
        } else {
            None
        }
    }

    /// The name of this protocol.
    pub fn name(&self) -> (name: &'static str)
        ensures
            name@ == self.name_text(),
    {
        match self {
            Protocol::Grpc => "grpc",
            Protocol::Http => "http",
            Protocol::HttpJson => "http_json",
        }
    }

    /// Looks a protocol up by its name or its short form.
    pub fn from_name(text: &str) -> (found: Option<Protocol>)
        ensures
            found == Protocol::named(text@),
    {
        if same_text(text, "grpc") || same_text(text, "g") {
            Some(Protocol::Grpc)
        } else if same_text(text, "http") || same_text(text, "h") {
            Some(Protocol::Http)
        } else if same_text(text, "http_json") || same_text(text, "hj") {
            Some(Protocol::HttpJson)
        } else {
            None
        }
    }
}

/// A protocol is found again by its own name.
pub proof fn lemma_protocol_named_by_its_name(protocol: Protocol)
    ensures
        Protocol::named(protocol.name_text()) == Some(protocol),
{
    reveal_strlit("grpc");
    reveal_strlit("g");
    reveal_strlit("http");
    reveal_strlit("h");
    reveal_strlit("http_json");
    reveal_strlit("hj");
    assert("grpc"@.len() == 4 && "http"@.len() == 4 && "http_json"@.len() == 9);
    assert("grpc"@[0] != "http"@[0]);
}

/// The port that a receiver listens on unless told otherwise.
pub open spec fn default_port_of(signal: Signal, protocol: Protocol) -> u16 {
    match protocol {
        Protocol::Grpc => 4317,
        Protocol::Http | Protocol::HttpJson => match signal {
            Signal::Metric => 55681,
            Signal::Trace | Signal::Log => 4318,
        },
    }
}

/// The port that a report goes to: the one given, else the default of the
/// protocol.
pub open spec fn port_of(signal: Signal, protocol: Protocol, port: Option<u16>) -> u16 {
    match port {
        Some(port) => port,
        None => default_port_of(signal, protocol),
    }
}

/// The scheme of the endpoint.
pub open spec fn scheme_of(tls: bool) -> Seq<char> {
    if tls {
        "https"@
    } else {
        "http"@
    }
}

/// The endpoint: scheme, host and port.
pub open spec fn endpoint_of(scheme: Seq<char>, host: Seq<char>, port: u16) -> Seq<char> {
    scheme + "://"@ + host + ":"@ + decimal(port as nat)
}

/// The default port of a protocol.
pub fn default_port(signal: Signal, protocol: Protocol) -> (port: u16)
    ensures
        port == default_port_of(signal, protocol),
{
    match protocol {
        Protocol::Grpc => 4317,
        Protocol::Http | Protocol::HttpJson => match signal {
            Signal::Metric => 55681,
            Signal::Trace | Signal::Log => 4318,
        },
    }
}

/// The port that a report goes to.
pub fn report_port(signal: Signal, protocol: Protocol, port: Option<u16>) -> (chosen: u16)
    ensures
        chosen == port_of(signal, protocol, port),
{
    match port {
        Some(port) => port,
        None => default_port(signal, protocol),
    }
}

/// The scheme of the endpoint: `https` with TLS, else `http`.
pub fn scheme(tls: bool) -> (scheme: &'static str)
    ensures
        scheme@ == scheme_of(tls),
{
    if tls {
        "https"
    } else {
        "http"
    }
}

/// The endpoint that a report is sent to.
pub fn endpoint_base(scheme: &str, host: &str, port: u16) -> (endpoint: String)
    ensures
        endpoint@ == endpoint_of(scheme@, host@, port),
{
    let number = to_decimal(port as u64);
    String::from_str(scheme).concat("://").concat(host).concat(":").concat(number.as_str())
}

/// The transport for a report, or why there is none.
///
/// gRPC carries every signal. HTTP carries traces and logs, without TLS and
/// without metadata; it carries no metrics. HTTP with JSON carries nothing.
pub open spec fn transport_of(
    signal: Signal,
    protocol: Protocol,
    tls: bool,
    metadata: nat,
) -> Result<Transport, OTKFault> {
    match protocol {
        Protocol::Grpc => Ok(Transport::Grpc),
        Protocol::Http => match signal {
            Signal::Metric => Err(OTKFault::UnimplementedError("http not supported for now"@)),
            Signal::Trace | Signal::Log => if tls {
                Err(OTKFault::UnimplementedError("http does not support tls for now"@))
            } else if metadata != 0 {
                Err(OTKFault::InvalidArgumentError("http can not set metadata for now"@))
            } else {
                Ok(Transport::Http)
            },
        },
        Protocol::HttpJson => match signal {
            Signal::Metric => Err(
                OTKFault::UnimplementedError("http json not supported for now"@),
            ),
            Signal::Trace | Signal::Log => Err(OTKFault::UnimplementedError("httpjson"@)),
        },
    }
}

/// Chooses the transport for a report. `metadata` is the number of metadata
/// entries that are to go with it.
pub fn select_transport(signal: Signal, protocol: Protocol, tls: bool, metadata: usize) -> (chosen:
    Result<Transport, OTKError>)
    ensures
        match chosen {
            Ok(transport) => transport_of(signal, protocol, tls, metadata as nat) == Ok::<
                Transport,
                OTKFault,
            >(transport),
            Err(error) => transport_of(signal, protocol, tls, metadata as nat) == Err::<
                Transport,
                OTKFault,
            >(error@),
        },
{
    match protocol {
        Protocol::Grpc => Ok(Transport::Grpc),
        Protocol::Http => match signal {
            Signal::Metric => Err(
                OTKError::UnimplementedError(String::from_str("http not supported for now")),
            ),
            Signal::Trace | Signal::Log => if tls {
                Err(
                    OTKError::UnimplementedError(
                        String::from_str("http does not support tls for now"),
                    ),
                )
            } else if metadata != 0 {
                Err(
                    OTKError::InvalidArgumentError(
                        String::from_str("http can not set metadata for now"),
                    ),
                )
            } else {
                Ok(Transport::Http)
            },
        },
        Protocol::HttpJson => match signal {
            Signal::Metric => Err(
                OTKError::UnimplementedError(String::from_str("http json not supported for now")),
            ),
            Signal::Trace | Signal::Log => Err(
                OTKError::UnimplementedError(String::from_str("httpjson")),
            ),
        },
    }
}

/// The type of the numbers that an instrument records.
#[derive(Debug, Clone, Copy, PartialEq, Eq, Structural)]
pub enum NumberKind {
    Unsigned,
    Signed,
    Real,
}

/// What an instrument does with the numbers.
#[derive(Debug, Clone, Copy, PartialEq, Eq, Structural)]
pub enum InstrumentKind {
    Counter,
    UpDownCounter,
    Histogram,
}

/// An instrument: what it does, and with which numbers.
#[derive(Debug, Clone, Copy, PartialEq, Eq, Structural)]
pub struct Instrument {
    pub kind: InstrumentKind,
    pub number: NumberKind,
}

/// The number type that a text names.
pub open spec fn number_named(text: Seq<char>) -> Option<NumberKind> {
    if text == "u64"@ {
        Some(NumberKind::Unsigned)
    } else if text == "i64"@ {
        Some(NumberKind::Signed)
    } else if text == "f64"@ {
        Some(NumberKind::Real)
    } else {
        None
    }
}

/// The kind of instrument that a text names.
pub open spec fn kind_named(text: Seq<char>) -> Option<InstrumentKind> {
    if text == "counter"@ {
        Some(InstrumentKind::Counter)
    } else if text == "up_down_counter"@ {
        Some(InstrumentKind::UpDownCounter)
    } else if text == "histogram"@ {
        Some(InstrumentKind::Histogram)
    } else {
        None
    }
}

/// Whether there is an instrument of this kind for numbers of this type. A
/// counter does not go down and takes no signed numbers; an up-down counter
/// takes no unsigned ones; a histogram takes all.
pub open spec fn goes_with(kind: InstrumentKind, number: NumberKind) -> bool {
    match kind {
        InstrumentKind::Counter => number != NumberKind::Signed,
        InstrumentKind::UpDownCounter => number != NumberKind::Unsigned,
        InstrumentKind::Histogram => true,
    }
}

/// The instrument that a number type and a kind select, if they name one and
/// go together.
pub open spec fn instrument_of(dtype: Seq<char>, mtype: Seq<char>) -> Option<Instrument> {
    match (number_named(dtype), kind_named(mtype)) {
        (Some(number), Some(kind)) => if goes_with(kind, number) {
            Some(Instrument { kind, number })
        } else {
            None
        },
        _ => None,
    }
}

/// What is said of a number type and a kind that select no instrument.
pub open spec fn combination_complaint() -> Seq<char> {
    "invalid combination"@
}

/// The number type that a text names.
fn number_kind(text: &str) -> (found: Option<NumberKind>)
    ensures
        found == number_named(text@),
{
    if same_text(text, "u64") {
        Some(NumberKind::Unsigned)
    } else if same_text(text, "i64") {
        Some(NumberKind::Signed)
    } else if same_text(text, "f64") {
        Some(NumberKind::Real)
    } else {
        None
    }
}

/// The kind of instrument that a text names.
fn instrument_kind(text: &str) -> (found: Option<InstrumentKind>)
    ensures
        found == kind_named(text@),
{
    if same_text(text, "counter") {
        Some(InstrumentKind::Counter)
    } else if same_text(text, "up_down_counter") {
        Some(InstrumentKind::UpDownCounter)
    } else if same_text(text, "histogram") {
        Some(InstrumentKind::Histogram)
    } else {
        None
    }
}

/// Selects the instrument for a metric from the names of its number type and
/// its kind.
pub fn select_instrument(dtype: &str, mtype: &str) -> (chosen: Result<Instrument, OTKError>)
    ensures
        match chosen {
            Ok(instrument) => instrument_of(dtype@, mtype@) == Some(instrument),
            Err(error) => {
                &&& instrument_of(dtype@, mtype@) is None
                &&& error@ == OTKFault::InvalidArgumentError(combination_complaint())
            },
        },
{
    let number = number_kind(dtype);
    let kind = instrument_kind(mtype);
    match (number, kind) {
        (Some(number), Some(kind)) => {
            let fits = match kind {
                InstrumentKind::Counter => number != NumberKind::Signed,
                InstrumentKind::UpDownCounter => number != NumberKind::Unsigned,
                InstrumentKind::Histogram => true,
            };
            if fits {
                Ok(Instrument { kind, number })
            } else {
                Err(OTKError::InvalidArgumentError(String::from_str("invalid combination")))
            }
        },
        _ => Err(OTKError::InvalidArgumentError(String::from_str("invalid combination"))),
    }
}

/// The values to record: the given ones in their order, the whole row
/// `times` times over.
pub open spec fn repeated<A>(values: Seq<A>, times: nat) -> Seq<A>
    decreases times,
{
    if times == 0 {
        Seq::empty()
    } else {
        repeated(values, (times - 1) as nat) + values
    }
}

/// A row that is repeated is `times` times as long, and what stands at a place
/// in it is what stands in the row at that place, counted round and round.
pub proof fn lemma_repeated_items<A>(values: Seq<A>, times: nat)
    ensures
        repeated(values, times).len() == times * values.len(),
        forall|i: int|
            0 <= i < repeated(values, times).len() ==> #[trigger] repeated(values, times)[i]
                == values[i % (values.len() as int)],
    decreases times,
{
    if times > 0 {
        let before = repeated(values, (times - 1) as nat);
        let count = values.len() as int;
        lemma_repeated_items(values, (times - 1) as nat);
        assert(before.len() == (times - 1) * values.len());
        assert(times * values.len() == (times - 1) * values.len() + values.len())
            by (nonlinear_arith);
        assert(repeated(values, times).len() == before.len() + values.len());
        assert forall|i: int| 0 <= i < repeated(values, times).len() implies #[trigger] repeated(
            values,
            times,
        )[i] == values[i % count] by {
            if i >= before.len() {
                let j = i - before.len();
                assert(repeated(values, times)[i] == values[j]);
                assert(i == (times - 1) * count + j);
                assert(((times - 1) * count + j) % count == j) by (nonlinear_arith)
                    requires
                        0 <= j < count,
                        times >= 1,
                ;
            }
        }
    } else {
        assert(times * values.len() == 0) by (nonlinear_arith)
            requires
                times == 0,
        ;
    }
}

/// The row of values, `times` times over.
pub fn repeat_values(values: &Vec<String>, times: u32) -> (row: Vec<String>)
    ensures
        row@ == repeated(values@, times as nat),
{
    let mut row: Vec<String> = Vec::new();
    let mut round: u32 = 0;
    while round < times
        invariant
            round <= times,
            row@ == repeated(values@, round as nat),
        decreases times - round,
    {
        let ghost before = row@;
        let mut i: usize = 0;
        while i < values.len()
            invariant
                i <= values.len(),
                row@ == before + values@.take(i as int),
            decreases values.len() - i,
        {
            row.push(values[i].clone());
            assert(values@.take(i + 1) =~= values@.take(i as int).push(values@[i as int]));
            i += 1;
        }
        assert(values@.take(values.len() as int) =~= values@);
        round += 1;
    }
    row
}

/// What is said of a value that is no number.
pub open spec fn value_complaint() -> Seq<char> {
    "parse metric value failed"@
}

/// The values that are recorded of a row: each in turn as long as each is a
/// number. At the first that is none, recording stops.
pub open spec fn recorded<N>(
    row: Seq<Seq<char>>,
    number_of: spec_fn(Seq<char>) -> Option<N>,
) -> Seq<N>
    decreases row.len(),
{
    if row.len() == 0 {
        Seq::empty()
    } else {
        match number_of(row.first()) {
            Some(n) => seq![n] + recorded(row.drop_first(), number_of),
            None => Seq::empty(),
        }
    }
}

/// Whether every value of a row is a number.
pub open spec fn all_numbers<N>(
    row: Seq<Seq<char>>,
    number_of: spec_fn(Seq<char>) -> Option<N>,
) -> bool {
    forall|i: int| 0 <= i < row.len() ==> (#[trigger] number_of(row[i])) is Some
}

/// The numbers that were read from a row of values, and what stopped the
/// reading, if anything did.
#[derive(Debug, Clone)]
pub struct Measurements<N> {
    /// The numbers to record, in the order of the row.
    pub values: Vec<N>,
    /// The complaint about the first value that is no number.
    pub failure: Option<OTKError>,
}

/// The characters of each value.
pub open spec fn row_texts(row: Seq<String>) -> Seq<Seq<char>> {
    row.map_values(|value: String| value@)
}

/// `recorded` of a row that is longer by one value.
proof fn lemma_recorded_one_more<N>(
    row: Seq<Seq<char>>,
    number_of: spec_fn(Seq<char>) -> Option<N>,
    i: int,
)
    requires
        0 <= i < row.len(),
        all_numbers(row.take(i), number_of),
    ensures
        recorded(row.take(i), number_of).len() == i,
        match number_of(row[i]) {
            Some(n) => recorded(row.take(i + 1), number_of) == recorded(
                row.take(i),
                number_of,
            ).push(n),
            None => recorded(row, number_of) == recorded(row.take(i), number_of),
        },
        i + 1 == row.len() && number_of(row[i]) is Some ==> recorded(row, number_of) == recorded(
            row.take(i + 1),
            number_of,
        ),
    decreases i,
{
    if i == 0 {
        assert(row.take(0) =~= Seq::<Seq<char>>::empty());
        assert(row.take(1).drop_first() =~= Seq::<Seq<char>>::empty());
        assert(row.take(1).first() == row[0]);
        match number_of(row[0]) {
            Some(n) => {
                assert(recorded(row.take(1).drop_first(), number_of) =~= Seq::<N>::empty());
                assert(recorded(row.take(1), number_of) =~= seq![n]);
                assert(recorded(row.take(0), number_of).push(n) =~= seq![n]);
            },
            None => {},
        }
    } else {
        let rest = row.drop_first();
        assert(number_of(row.take(i)[0]) is Some);
        assert(row.take(i).drop_first() =~= rest.take(i - 1));
        assert(row.take(i + 1).drop_first() =~= rest.take(i));
        assert(row.take(i + 1).first() == row[0]);
        assert(row.take(i).first() == row[0]);
        assert forall|j: int| 0 <= j < i - 1 implies (#[trigger] number_of(rest.take(i - 1)[j]))
            is Some by {
            assert(rest.take(i - 1)[j] == row.take(i)[j + 1]);
        }
        lemma_recorded_one_more(rest, number_of, i - 1);
        assert(rest[i - 1] == row[i]);
        match number_of(row[i]) {
            Some(n) => {
                assert(recorded(row.take(i + 1), number_of) =~= recorded(
                    row.take(i),
                    number_of,
                ).push(n));
            },
            None => {},
        }
    }
    if i + 1 == row.len() {
        assert(row.take(i + 1) =~= row);
    }
}

/// Reads a row of values as numbers without a sign.
pub fn read_unsigned(row: &Vec<String>) -> (read: Measurements<u64>)
    ensures
        read.values@.map_values(|n: u64| n as nat) == recorded(
            row_texts(row@),
            |text: Seq<char>| unsigned_of(text, u64::MAX as nat),
        ),
        match read.failure {
            Some(error) => {
                &&& !all_numbers(
                    row_texts(row@),
                    |text: Seq<char>| unsigned_of(text, u64::MAX as nat),
                )
                &&& error@ == OTKFault::InvalidArgumentError(value_complaint())
            },
            None => all_numbers(
                row_texts(row@),
                |text: Seq<char>| unsigned_of(text, u64::MAX as nat),
            ),
        },
{
    let ghost texts = row_texts(row@);
    let ghost number_of = |text: Seq<char>| unsigned_of(text, u64::MAX as nat);
    let mut values: Vec<u64> = Vec::new();
    let mut i: usize = 0;
    assert(texts.take(0) =~= Seq::<Seq<char>>::empty());
    assert(values@.map_values(|n: u64| n as nat) =~= recorded(texts.take(0), number_of));
    while i < row.len()
        invariant
            i <= row.len(),
            texts == row_texts(row@),
            number_of == |text: Seq<char>| unsigned_of(text, u64::MAX as nat),
            all_numbers(texts.take(i as int), number_of),
            values@.map_values(|n: u64| n as nat) == recorded(texts.take(i as int), number_of),
        decreases row.len() - i,
    {
        proof {
            lemma_recorded_one_more(texts, number_of, i as int);
            assert(texts[i as int] == row@[i as int]@);
        }
        match parse_unsigned(row[i].as_str(), u64::MAX) {
            Some(n) => {
                let ghost before = values@;
                values.push(n);
                proof {
                    assert(number_of(texts[i as int]) == Some(n as nat));
                    assert(values@.map_values(|n: u64| n as nat) =~= before.map_values(
                        |n: u64| n as nat,
                    ).push(n as nat));
                    assert forall|j: int| 0 <= j < i + 1 implies (#[trigger] number_of(
                        texts.take(i + 1)[j],
                    )) is Some by {
                        if j < i {
                            assert(texts.take(i + 1)[j] == texts.take(i as int)[j]);
                        }
                    }
                }
            },
            None => {
                proof {
                    assert(number_of(texts[i as int]) is None);
                }
                return Measurements {
                    values,
                    failure: Some(
                        OTKError::InvalidArgumentError(
                            String::from_str("parse metric value failed"),
                        ),
                    ),
                };
            },
        }
        i += 1;
    }
    proof {
        assert(texts.take(row.len() as int) =~= texts);
    }
    Measurements { values, failure: None }
}

/// Reads a row of values as numbers with a sign.
pub fn read_signed(row: &Vec<String>) -> (read: Measurements<i64>)
    ensures
        read.values@.map_values(|n: i64| n as int) == recorded(
            row_texts(row@),
            |text: Seq<char>| signed_of(text),
        ),
        match read.failure {
            Some(error) => {
                &&& !all_numbers(row_texts(row@), |text: Seq<char>| signed_of(text))
                &&& error@ == OTKFault::InvalidArgumentError(value_complaint())
            },
            None => all_numbers(row_texts(row@), |text: Seq<char>| signed_of(text)),
        },
{
    let ghost texts = row_texts(row@);
    let ghost number_of = |text: Seq<char>| signed_of(text);
    let mut values: Vec<i64> = Vec::new();
    let mut i: usize = 0;
    assert(texts.take(0) =~= Seq::<Seq<char>>::empty());
    assert(values@.map_values(|n: i64| n as int) =~= recorded(texts.take(0), number_of));
    while i < row.len()
        invariant
            i <= row.len(),
            texts == row_texts(row@),
            number_of == |text: Seq<char>| signed_of(text),
            all_numbers(texts.take(i as int), number_of),
            values@.map_values(|n: i64| n as int) == recorded(texts.take(i as int), number_of),
        decreases row.len() - i,
    {
        proof {
            lemma_recorded_one_more(texts, number_of, i as int);
            assert(texts[i as int] == row@[i as int]@);
        }
        match parse_signed(row[i].as_str()) {
            Some(n) => {
                let ghost before = values@;
                values.push(n);
                proof {
                    assert(number_of(texts[i as int]) == Some(n as int));
                    assert(values@.map_values(|n: i64| n as int) =~= before.map_values(
                        |n: i64| n as int,
                    ).push(n as int));
                    assert forall|j: int| 0 <= j < i + 1 implies (#[trigger] number_of(
                        texts.take(i + 1)[j],
                    )) is Some by {
                        if j < i {
                            assert(texts.take(i + 1)[j] == texts.take(i as int)[j]);
                        }
                    }
                }
            },
            None => {
                proof {
                    assert(number_of(texts[i as int]) is None);
                }
                return Measurements {
                    values,
                    failure: Some(
                        OTKError::InvalidArgumentError(
                            String::from_str("parse metric value failed"),
                        ),
                    ),
                };
            },
        }
        i += 1;
    }
    proof {
        assert(texts.take(row.len() as int) =~= texts);
    }
    Measurements { values, failure: None }
}

} // verus!

//! The catalog of message shapes a payload can be read as.

use vstd::prelude::*;
use vstd::string::StringExecFns;
use crate::text::same_text;

verus! {

/// Selects the shape a payload is read as.
///
/// `Direct` is no message shape: it asks for the bytes as they are. The
/// thirteen others each name one message of the protocol.
#[derive(Debug, Clone, Copy, PartialEq, Eq, Structural)]
pub enum DecodeType {
    Direct,
    Span,
    Metric,
    LogRecord,
    ScopeSpans,
    ScopeMetrics,
    ScopeLogs,
    Resource,
    ResourceSpans,
    ResourceMetrics,
    ResourceLogs,
    ExportTraceServiceRequest,
    ExportMetricsServiceRequest,
    ExportLogsServiceRequest,
}

/// What was asked for cannot be done as it was asked.
#[derive(Debug, Clone)]
pub enum ConfigurationError {
    /// No shape has this name.
    UnknownShape(String),
}

impl ConfigurationError {
    /// The words that report the error.
    pub open spec fn text(&self) -> Seq<char> {
        match self {
            ConfigurationError::UnknownShape(name) => "unknown shape: "@ + name@,
        }
    }

    /// The words that report the error.
    pub fn message(&self) -> (text: String)
        ensures
            text@ == self.text(),
    {
        match self {
            ConfigurationError::UnknownShape(name) => String::from_str("unknown shape: ").concat(
                name.as_str(),
            ),
        }
    }
}

impl DecodeType {
    /// The name a shape is selected by and listed under.
    pub open spec fn name_text(self) -> Seq<char> {
        match self {
            DecodeType::Direct => "Direct"@,
            DecodeType::Span => "Span"@,
            DecodeType::Metric => "Metric"@,
            DecodeType::LogRecord => "LogRecord"@,
            DecodeType::ScopeSpans => "ScopeSpans"@,
            DecodeType::ScopeMetrics => "ScopeMetrics"@,
            DecodeType::ScopeLogs => "ScopeLogs"@,
            DecodeType::Resource => "Resource"@,
            DecodeType::ResourceSpans => "ResourceSpans"@,
            DecodeType::ResourceMetrics => "ResourceMetrics"@,
            DecodeType::ResourceLogs => "ResourceLogs"@,
            DecodeType::ExportTraceServiceRequest => "ExportTraceServiceRequest"@,
            DecodeType::ExportMetricsServiceRequest => "ExportMetricsServiceRequest"@,
            DecodeType::ExportLogsServiceRequest => "ExportLogsServiceRequest"@,
        }
    }

    /// Every shape, in the order of the catalog.
    pub open spec fn every() -> Seq<DecodeType> {
        seq![
            DecodeType::Direct,
            DecodeType::Span,
            DecodeType::Metric,
            DecodeType::LogRecord,
            DecodeType::ScopeSpans,
            DecodeType::ScopeMetrics,
            DecodeType::ScopeLogs,
            DecodeType::Resource,
            DecodeType::ResourceSpans,
            DecodeType::ResourceMetrics,
            DecodeType::ResourceLogs,
            DecodeType::ExportTraceServiceRequest,
            DecodeType::ExportMetricsServiceRequest,
            DecodeType::ExportLogsServiceRequest,
        ]
    }

    /// The shape that a name selects: the one whose name it is, letter for
    /// letter, if there is one.
    pub open spec fn named(text: Seq<char>) -> Option<DecodeType> {
        if exists|shape: DecodeType| shape.name_text() == text {
            Some(choose|shape: DecodeType| shape.name_text() == text)
        } else {
            None
        }
    }

    /// The name of this shape.
    pub fn name(&self) -> (name: &'static str)
        ensures
            name@ == self.name_text(),
    {
        match self {
            DecodeType::Direct => "Direct",
            DecodeType::Span => "Span",
            DecodeType::Metric => "Metric",
            DecodeType::LogRecord => "LogRecord",
            DecodeType::ScopeSpans => "ScopeSpans",
            DecodeType::ScopeMetrics => "ScopeMetrics",
            DecodeType::ScopeLogs => "ScopeLogs",
            DecodeType::Resource => "Resource",
            DecodeType::ResourceSpans => "ResourceSpans",
            DecodeType::ResourceMetrics => "ResourceMetrics",
            DecodeType::ResourceLogs => "ResourceLogs",
            DecodeType::ExportTraceServiceRequest => "ExportTraceServiceRequest",
            DecodeType::ExportMetricsServiceRequest => "ExportMetricsServiceRequest",
            DecodeType::ExportLogsServiceRequest => "ExportLogsServiceRequest",
        }
    }

    /// The catalog: every shape once, `Direct` first.
    pub fn catalog() -> (all: Vec<DecodeType>)
        ensures
            all@ == DecodeType::every(),
    {
        let mut all: Vec<DecodeType> = Vec::new();
        all.push(DecodeType::Direct);
        all.push(DecodeType::Span);
        all.push(DecodeType::Metric);
        all.push(DecodeType::LogRecord);
        all.push(DecodeType::ScopeSpans);
        all.push(DecodeType::ScopeMetrics);
        all.push(DecodeType::ScopeLogs);
        all.push(DecodeType::Resource);
        all.push(DecodeType::ResourceSpans);
        all.push(DecodeType::ResourceMetrics);
        all.push(DecodeType::ResourceLogs);
        all.push(DecodeType::ExportTraceServiceRequest);
        all.push(DecodeType::ExportMetricsServiceRequest);
        all.push(DecodeType::ExportLogsServiceRequest);
        assert(all@ =~= DecodeType::every());
        all
    }

    /// Looks a shape up by its name. The name must match exactly: case
    /// counts, and nothing may stand before or after it.
    pub fn from_name(text: &str) -> (found: Option<DecodeType>)
        ensures
            found == DecodeType::named(text@),
    {
        let all = DecodeType::catalog();
        let mut i: usize = 0;
        while i < all.len()
            invariant
                i <= all.len(),
                all@ == DecodeType::every(),
                forall|j: int| 0 <= j < i ==> all@[j].name_text() != text@,
            decreases all.len() - i,
        {
            let shape = all[i];
            if same_text(shape.name(), text) {
                proof {
                    lemma_names_differ();
                }
                return Some(shape);
            }
            i += 1;
        }
        proof {
            lemma_every_is_complete();
        }
        None
    }

    /// Selects a shape by its name, and refuses a name that no shape has.
    pub fn parse(text: &str) -> (selected: Result<DecodeType, ConfigurationError>)
        ensures
            match selected {
                Ok(shape) => DecodeType::named(text@) == Some(shape),
                Err(ConfigurationError::UnknownShape(name)) => {
                    &&& DecodeType::named(text@) is None
                    &&& name@ == text@
                },
            },
    {
        match DecodeType::from_name(text) {
            Some(shape) => Ok(shape),
            None => Err(ConfigurationError::UnknownShape(String::from_str(text))),
        }
    }
}

impl std::str::FromStr for DecodeType {
    type Err = ConfigurationError;

    fn from_str(s: &str) -> (selected: Result<DecodeType, ConfigurationError>)
        ensures
            match selected {
                Ok(shape) => DecodeType::named(s@) == Some(shape),
                Err(ConfigurationError::UnknownShape(name)) => {
                    &&& DecodeType::named(s@) is None
                    &&& name@ == s@
                },
            },
    {
        DecodeType::parse(s)
    }
}

/// Every shape stands in the catalog.
pub proof fn lemma_every_is_complete()
    ensures
        forall|shape: DecodeType| DecodeType::every().contains(shape),
        DecodeType::every().len() == 14,
        DecodeType::every().no_duplicates(),
{
    let all = DecodeType::every();
    assert forall|shape: DecodeType| all.contains(shape) by {
        let i: int = match shape {
            DecodeType::Direct => 0,
            DecodeType::Span => 1,
            DecodeType::Metric => 2,
            DecodeType::LogRecord => 3,
            DecodeType::ScopeSpans => 4,
            DecodeType::ScopeMetrics => 5,
            DecodeType::ScopeLogs => 6,
            DecodeType::Resource => 7,
            DecodeType::ResourceSpans => 8,
            DecodeType::ResourceMetrics => 9,
            DecodeType::ResourceLogs => 10,
            DecodeType::ExportTraceServiceRequest => 11,
            DecodeType::ExportMetricsServiceRequest => 12,
            DecodeType::ExportLogsServiceRequest => 13,
        };
        assert(all[i] == shape);
    }
}

/// No two shapes share a name.
pub proof fn lemma_names_differ()
    ensures
        forall|a: DecodeType, b: DecodeType| a.name_text() == b.name_text() ==> a == b,
{
    reveal_strlit("Direct");
    reveal_strlit("Span");
    reveal_strlit("Metric");
    reveal_strlit("LogRecord");
    reveal_strlit("ScopeSpans");
    reveal_strlit("ScopeMetrics");
    reveal_strlit("ScopeLogs");
    reveal_strlit("Resource");
    reveal_strlit("ResourceSpans");
    reveal_strlit("ResourceMetrics");
    reveal_strlit("ResourceLogs");
    reveal_strlit("ExportTraceServiceRequest");
    reveal_strlit("ExportMetricsServiceRequest");
    reveal_strlit("ExportLogsServiceRequest");
    assert forall|a: DecodeType, b: DecodeType| a.name_text() == b.name_text() implies a == b by {
        if a != b {
            assert(a.name_text().len() != b.name_text().len() || a.name_text()[0]
                != b.name_text()[0] || a.name_text()[6] != b.name_text()[6]
                || a.name_text()[8] != b.name_text()[8]);
        }
    }
}

/// A shape is found again by its own name, and by no other text.
pub proof fn lemma_named_inverts_name(shape: DecodeType, text: Seq<char>)
    ensures
        DecodeType::named(shape.name_text()) == Some(shape),
        DecodeType::named(text) == Some(shape) <==> text == shape.name_text(),
{
    lemma_names_differ();
}

} // verus!

use otk::shape::{ConfigurationError, DecodeType};
use std::str::FromStr;

fn expected() -> Vec<(DecodeType, &'static str)> {
    vec![
        (DecodeType::Direct, "Direct"),
        (DecodeType::Span, "Span"),
        (DecodeType::Metric, "Metric"),
        (DecodeType::LogRecord, "LogRecord"),
        (DecodeType::ScopeSpans, "ScopeSpans"),
        (DecodeType::ScopeMetrics, "ScopeMetrics"),
        (DecodeType::ScopeLogs, "ScopeLogs"),
        (DecodeType::Resource, "Resource"),
        (DecodeType::ResourceSpans, "ResourceSpans"),
        (DecodeType::ResourceMetrics, "ResourceMetrics"),
        (DecodeType::ResourceLogs, "ResourceLogs"),
        (DecodeType::ExportTraceServiceRequest, "ExportTraceServiceRequest"),
        (DecodeType::ExportMetricsServiceRequest, "ExportMetricsServiceRequest"),
        (DecodeType::ExportLogsServiceRequest, "ExportLogsServiceRequest"),
    ]
}

#[test]
fn catalog_lists_every_shape_in_order() {
    let catalog = DecodeType::catalog();
    let shapes: Vec<DecodeType> = expected().into_iter().map(|(shape, _)| shape).collect();
    assert_eq!(catalog.len(), 14);
    assert_eq!(catalog, shapes);
}

#[test]
fn every_shape_has_its_name() {
    for (shape, name) in expected() {
        assert_eq!(shape.name(), name);
    }
}

#[test]
fn a_shape_is_found_by_its_name() {
    for (shape, name) in expected() {
        assert_eq!(DecodeType::from_name(name), Some(shape));
        assert_eq!(DecodeType::from_name(shape.name()), Some(shape));
    }
}

#[test]
fn names_are_matched_exactly() {
    assert_eq!(DecodeType::from_name(""), None);
    assert_eq!(DecodeType::from_name("span"), None);
    assert_eq!(DecodeType::from_name("SPAN"), None);
    assert_eq!(DecodeType::from_name("Span "), None);
    assert_eq!(DecodeType::from_name(" Span"), None);
    assert_eq!(DecodeType::from_name("Spans"), None);
    assert_eq!(DecodeType::from_name("Spa"), None);
    assert_eq!(DecodeType::from_name("ExportTraceServiceRequests"), None);
    assert_eq!(DecodeType::from_name("TracesData"), None);
    assert_eq!(DecodeType::from_name("Métric"), None);
}

#[test]
fn names_differ_from_each_other() {
    let all = expected();
    for (i, (_, a)) in all.iter().enumerate() {
        for (j, (_, b)) in all.iter().enumerate() {
            assert_eq!(a == b, i == j);
        }
    }
}

#[test]
fn an_unknown_name_is_a_configuration_error() {
    for (shape, name) in expected() {
        assert_eq!(DecodeType::parse(name).unwrap(), shape);
        assert_eq!(DecodeType::from_str(name).unwrap(), shape);
        assert_eq!(name.parse::<DecodeType>().unwrap(), shape);
    }
    for name in ["", "span", "Trace", "Direct "] {
        match DecodeType::parse(name) {
            Err(ConfigurationError::UnknownShape(asked)) => assert_eq!(asked, name),
            other => panic!("unexpected: {:?}", other),
        }
        assert!(name.parse::<DecodeType>().is_err());
    }
    assert_eq!(
        ConfigurationError::UnknownShape(String::from("Trace")).message(),
        "unknown shape: Trace"
    );
}

use opentelemetry_proto::tonic::trace::v1::Span;
use otk::decode::CodecError;
use otk::quarantine::{quarantine_file_name, EncodingError, RecordError, Rejected};
use otk::shape::DecodeType;
use otk::stream::{decode_line, decode_struct_b64, read_line, read_record, LineOutcome};
use prost::Message;

fn a_span(name: &str) -> Span {
    Span { trace_id: vec![7; 16], name: String::from(name), ..Default::default() }
}

fn is_side_file_name(name: &str) -> bool {
    let parts: Vec<&str> = name.split('.').collect();
    parts.len() == 3
        && parts[0] == "otk"
        && parts[2] == "bin"
        && parts[1].len() == 7
        && parts[1].chars().all(|c| c.is_ascii_alphanumeric())
}

#[test]
fn base64_stands_for_its_bytes() {
    assert_eq!(decode_line("AQID").unwrap(), vec![1, 2, 3]);
    assert_eq!(decode_line("aGVsbG8gd29ybGR+Cg==").unwrap(), b"hello world~\n".to_vec());
    assert_eq!(decode_line("").unwrap(), Vec::<u8>::new());
    assert_eq!(decode_line("/+8=").unwrap(), vec![0xff, 0xef]);
}

#[test]
fn text_that_is_not_base64_is_refused_with_the_line_itself() {
    match decode_line("not base64!") {
        Err(Rejected { error: RecordError::Encoding(EncodingError { reason }), bytes }) => {
            assert_eq!(reason, base64::decode("not base64!").unwrap_err().to_string());
            assert_eq!(reason, "Invalid byte 32, offset 3.");
            assert_eq!(bytes, b"not base64!".to_vec());
        }
        other => panic!("unexpected: {:?}", other),
    }
    // the alphabet of URLs is not the standard one
    assert!(decode_line("_-8=").is_err());
    // a lone symbol stands for no byte
    assert!(decode_line("A").is_err());
    // trailing bits that stand for nothing
    match decode_line("AQJ=") {
        Err(Rejected { error: RecordError::Encoding(EncodingError { reason }), .. }) => {
            assert_eq!(reason, "Invalid last symbol 74, offset 2.")
        }
        other => panic!("unexpected: {:?}", other),
    }
}

#[test]
fn a_line_is_read_through_both_layers() {
    let span = a_span("one");
    let line = base64::encode(span.encode_to_vec());
    assert_eq!(read_line(&DecodeType::Span, &line, false).unwrap(), format!("{:?}", span));
    assert_eq!(read_line(&DecodeType::Span, &line, true).unwrap(), format!("{:#?}", span));
    assert_eq!(read_line(&DecodeType::Direct, "AQID", false).unwrap(), "[1, 2, 3]");
}

#[test]
fn a_record_that_the_codec_refuses_is_kept_as_bytes() {
    let bytes = a_span("cut").encode_to_vec();
    let cut = bytes[..bytes.len() - 1].to_vec();
    match read_record(&DecodeType::Span, cut.clone(), false) {
        Err(Rejected { error: RecordError::Codec(CodecError::Malformed(reason)), bytes }) => {
            assert!(reason.starts_with("failed to decode Protobuf message: "));
            assert_eq!(bytes, cut);
        }
        other => panic!("unexpected: {:?}", other),
    }
    match read_record(&DecodeType::Span, Vec::new(), false) {
        Err(Rejected { error: RecordError::Codec(CodecError::EmptyPayload), bytes }) => {
            assert!(bytes.is_empty())
        }
        other => panic!("unexpected: {:?}", other),
    }
}

#[test]
fn a_stream_goes_on_after_a_bad_line() {
    let first = a_span("first");
    let third = a_span("third");
    let lines = vec![
        base64::encode(first.encode_to_vec()),
        String::from("@@ this is not base64 @@"),
        base64::encode(third.encode_to_vec()),
    ];
    let mut emitted: Vec<String> = Vec::new();
    let mut side_files: Vec<(String, Vec<u8>)> = Vec::new();
    for line in lines {
        match decode_struct_b64(&DecodeType::Span, line, false) {
            LineOutcome::Emitted(text) => emitted.push(text),
            LineOutcome::Quarantined(quarantine) => {
                assert!(matches!(quarantine.error, RecordError::Encoding(_)));
                side_files.push((quarantine.file_name, quarantine.bytes));
            }
        }
    }
    assert_eq!(emitted, vec![format!("{:?}", first), format!("{:?}", third)]);
    assert_eq!(side_files.len(), 1);
    assert!(is_side_file_name(&side_files[0].0), "{}", side_files[0].0);
    assert_eq!(side_files[0].1, b"@@ this is not base64 @@".to_vec());
}

#[test]
fn a_line_that_the_codec_refuses_is_set_aside_with_its_record() {
    let bytes = a_span("cut").encode_to_vec();
    let cut = bytes[..bytes.len() - 1].to_vec();
    match decode_struct_b64(&DecodeType::Span, base64::encode(&cut), true) {
        LineOutcome::Quarantined(quarantine) => {
            assert!(matches!(quarantine.error, RecordError::Codec(CodecError::Malformed(_))));
            assert_eq!(quarantine.bytes, cut);
            assert!(is_side_file_name(&quarantine.file_name), "{}", quarantine.file_name);
            assert_eq!(
                quarantine.complaint(),
                format!("error during decoding: {}", Span::decode(cut.as_slice()).unwrap_err())
            );
            assert_eq!(quarantine.notice(), format!("data dumped as {}", quarantine.file_name));
        }
        other => panic!("unexpected: {:?}", other),
    }
}

#[test]
fn an_empty_line_is_set_aside_under_a_message_shape() {
    match decode_struct_b64(&DecodeType::Metric, String::new(), false) {
        LineOutcome::Quarantined(quarantine) => {
            assert!(matches!(quarantine.error, RecordError::Codec(CodecError::EmptyPayload)));
            assert!(quarantine.bytes.is_empty());
            assert_eq!(quarantine.complaint(), "error during decoding: empty payload");
        }
        other => panic!("unexpected: {:?}", other),
    }
    match decode_struct_b64(&DecodeType::Direct, String::new(), false) {
        LineOutcome::Emitted(text) => assert_eq!(text, "[]"),
        other => panic!("unexpected: {:?}", other),
    }
}

#[test]
fn side_files_are_named_by_prefix_random_part_and_ending() {
    assert_eq!(quarantine_file_name("abcDEF7"), "otk.abcDEF7.bin");
    assert_eq!(quarantine_file_name(""), "otk..bin");
    let rejected = Rejected {
        error: RecordError::Codec(CodecError::EmptyPayload),
        bytes: vec![1, 2, 3],
    };
    let quarantine = rejected.clone().quarantined_as("0000000");
    assert_eq!(quarantine.file_name, "otk.0000000.bin");
    assert_eq!(quarantine.bytes, vec![1, 2, 3]);
    assert!(matches!(quarantine.error, RecordError::Codec(CodecError::EmptyPayload)));
}

#[test]
fn random_names_have_seven_letters_or_digits() {
    let mut names: Vec<String> = Vec::new();
    for _ in 0..50 {
        let rejected = Rejected {
            error: RecordError::Encoding(EncodingError { reason: String::from("r") }),
            bytes: vec![9],
        };
        let quarantine = rejected.quarantined();
        assert!(is_side_file_name(&quarantine.file_name), "{}", quarantine.file_name);
        assert_eq!(quarantine.bytes, vec![9]);
        assert_eq!(quarantine.error.message(), "r");
        names.push(quarantine.file_name);
    }
    names.sort();
    names.dedup();
    assert!(names.len() > 1);
}

#[test]
fn a_line_beyond_ascii_is_kept_byte_for_byte() {
    match decode_line("é=ü") {
        Err(Rejected { error: RecordError::Encoding(_), bytes }) => {
            assert_eq!(bytes, "é=ü".as_bytes().to_vec());
            assert_eq!(bytes.len(), 5);
        }
        other => panic!("unexpected: {:?}", other),
    }
}

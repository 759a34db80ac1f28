use otk::cmd_decode::{Decode, Mode};
use otk::shape::DecodeType;

fn asked(base64: bool, list: bool) -> Decode {
    Decode {
        name: DecodeType::ExportTraceServiceRequest,
        input: String::from("-"),
        base64,
        list,
        pretty: false,
    }
}

#[test]
fn listing_comes_before_the_other_flags() {
    assert_eq!(asked(false, true).mode(), Mode::List);
    assert_eq!(asked(true, true).mode(), Mode::List);
}

#[test]
fn base64_selects_the_stream() {
    assert_eq!(asked(true, false).mode(), Mode::Stream);
    assert_eq!(asked(false, false).mode(), Mode::Whole);
}

#[test]
fn the_shape_is_announced_by_name() {
    assert_eq!(asked(false, false).announcement(), "decoding as proto ExportTraceServiceRequest");
    let direct = Decode { name: DecodeType::Direct, ..asked(true, false) };
    assert_eq!(direct.announcement(), "decoding as proto Direct");
}

//! A stream of records: one line of base64 for each payload.
//!
//! Every line stands alone. It is decoded from base64, read as the requested
//! shape and rendered; a line that fails at either step is set aside, and
//! nothing of it reaches the lines that follow.

use vstd::prelude::*;
use vstd::string::{StringExecFns, StringSliceAdditionalSpecFns};
use vstd::utf8::encode_utf8;
use crate::decode::{decode_struct, reading, reading_text};
use crate::encoding::{
    base64_decode, base64_decoding, base64_error_message, base64_error_text, decodable_length,
};
use crate::quarantine::{
    is_quarantine_name, EncodingError, Quarantine, RecordError, RecordFault, Rejected,
};
use crate::shape::DecodeType;

verus! {

/// What became of one line of a stream.
#[derive(Debug, Clone)]
pub enum LineOutcome {
    /// The line was read: here is the text of its message.
    Emitted(String),
    /// The line was refused and is to be set aside.
    Quarantined(Quarantine),
}

/// What is said of a line that is too long to be decoded.
pub open spec fn length_complaint() -> Seq<char> {
    "line too long"@
}

/// The bytes that a line carries: what its base64 stands for. A line that is
/// not base64 is refused with the decoder's reason, and the bytes to keep are
/// those of the line itself. So is a line of more bytes than an allocation
/// can hold, which no decoder is asked about.
pub open spec fn line_record(line: Seq<char>) -> Result<Seq<u8>, (RecordFault, Seq<u8>)> {
    if !decodable_length(line) {
        Err((RecordFault::Encoding(length_complaint()), encode_utf8(line)))
    } else {
        match base64_decoding(line) {
            Ok(bytes) => Ok(bytes),
            Err(error) => Err(
                (RecordFault::Encoding(base64_error_text(error)), encode_utf8(line)),
            ),
        }
    }
}

/// What reading a record as `name` gives: the text of its message, or the
/// codec's refusal with the bytes of the record.
pub open spec fn record_text(name: DecodeType, bytes: Seq<u8>, pretty: bool) -> Result<
    Seq<char>,
    (RecordFault, Seq<u8>),
> {
    match reading_text(name, bytes, pretty) {
        Ok(text) => Ok(text),
        Err(fault) => Err((RecordFault::Codec(fault), bytes)),
    }
}

/// What one line of a stream gives: the text of the message it carries, or
/// why it is refused and which bytes are kept.
pub open spec fn line_text(name: DecodeType, line: Seq<char>, pretty: bool) -> Result<
    Seq<char>,
    (RecordFault, Seq<u8>),
> {
    match line_record(line) {
        Ok(bytes) => record_text(name, bytes, pretty),
        Err(refusal) => Err(refusal),
    }
}

/// Decodes a line from base64.
pub fn decode_line(line: &str) -> (outcome: Result<Vec<u8>, Rejected>)
    ensures
        match outcome {
            Ok(bytes) => line_record(line@) == Ok::<Seq<u8>, (RecordFault, Seq<u8>)>(bytes@),
            Err(rejected) => line_record(line@) == Err::<Seq<u8>, (RecordFault, Seq<u8>)>(
                (rejected.error@, rejected.bytes@),
            ),
        },
{
    let kept = line.as_bytes();
    if kept.len() > isize::MAX as usize {
        return Err(
            Rejected {
                error: RecordError::Encoding(
                    EncodingError { reason: String::from_str("line too long") },
                ),
                bytes: vstd::slice::slice_to_vec(kept),
            },
        );
    }
    match base64_decode(line) {
        Ok(bytes) => Ok(bytes),
        Err(error) => {
            let reason = base64_error_message(&error);
            Err(
                Rejected {
                    error: RecordError::Encoding(EncodingError { reason }),
                    bytes: vstd::slice::slice_to_vec(kept),
                },
            )
        },
    }
}

/// Reads a record as the shape `name` and renders its message.
pub fn read_record(name: &DecodeType, bytes: Vec<u8>, pretty: bool) -> (outcome: Result<
    String,
    Rejected,
>)
    ensures
        match outcome {
            Ok(text) => record_text(*name, bytes@, pretty) == Ok::<
                Seq<char>,
                (RecordFault, Seq<u8>),
            >(text@),
            Err(rejected) => record_text(*name, bytes@, pretty) == Err::<
                Seq<char>,
                (RecordFault, Seq<u8>),
            >((rejected.error@, rejected.bytes@)),
        },
{
    match decode_struct(name, bytes.as_slice(), pretty) {
        Ok(text) => Ok(text),
        Err(error) => Err(Rejected { error: RecordError::Codec(error), bytes }),
    }
}

/// Reads one line of a stream: from base64 to bytes, from bytes to the
/// message of shape `name`, from the message to its text.
pub fn read_line(name: &DecodeType, line: &str, pretty: bool) -> (outcome: Result<String, Rejected>)
    ensures
        match outcome {
            Ok(text) => line_text(*name, line@, pretty) == Ok::<Seq<char>, (RecordFault, Seq<u8>)>(
                text@,
            ),
            Err(rejected) => line_text(*name, line@, pretty) == Err::<
                Seq<char>,
                (RecordFault, Seq<u8>),
            >((rejected.error@, rejected.bytes@)),
        },
{
    match decode_line(line) {
        Ok(bytes) => read_record(name, bytes, pretty),
        Err(rejected) => Err(rejected),
    }
}

/// Handles one line of a stream. The line is either emitted or quarantined;
/// there is no third outcome, and none that ends the stream.
///
/// A line that is refused gets a side file under a fresh random name, for
/// the bytes that did not decode: the record where the codec refused it, the
/// line as it stood where it was not even base64.
pub fn decode_struct_b64(name: &DecodeType, payload: String, pretty: bool) -> (outcome: LineOutcome)
    ensures
        match outcome {
            LineOutcome::Emitted(text) => line_text(*name, payload@, pretty) == Ok::<
                Seq<char>,
                (RecordFault, Seq<u8>),
            >(text@),
            LineOutcome::Quarantined(quarantine) => {
                &&& line_text(*name, payload@, pretty) == Err::<Seq<char>, (RecordFault, Seq<u8>)>(
                    (quarantine.error@, quarantine.bytes@),
                )
                &&& is_quarantine_name(quarantine.file_name@)
            },
        },
{
    match read_line(name, payload.as_str(), pretty) {
        Ok(text) => LineOutcome::Emitted(text),
        Err(rejected) => LineOutcome::Quarantined(rejected.quarantined()),
    }
}

/// A line is emitted if and only if both layers accept it: the line is
/// base64, and its bytes are read as the shape. A line that is refused is
/// refused by the first layer that fails, and what is kept of it is what that
/// layer was given: the line itself where it is not base64, the record where
/// the codec refused it.
pub proof fn lemma_line_passes_both_layers(name: DecodeType, line: Seq<char>, pretty: bool)
    ensures
        line_text(name, line, pretty) is Ok <==> {
            &&& decodable_length(line)
            &&& base64_decoding(line) is Ok
            &&& reading(name, base64_decoding(line)->Ok_0) is Ok
        },
        line_text(name, line, pretty) matches Err((RecordFault::Encoding(_), kept)) ==> {
            &&& !decodable_length(line) || base64_decoding(line) is Err
            &&& kept == encode_utf8(line)
        },
        line_text(name, line, pretty) matches Err((RecordFault::Codec(fault), kept)) ==> {
            &&& decodable_length(line)
            &&& base64_decoding(line) == Ok::<Seq<u8>, base64::DecodeError>(kept)
            &&& reading(name, kept) == Err::<crate::message::MessageView, _>(fault)
        },
{
}

/// What a stream gives: what each of its lines gives, one for one and in
/// their order.
pub open spec fn stream_texts(name: DecodeType, lines: Seq<Seq<char>>, pretty: bool) -> Seq<
    Result<Seq<char>, (RecordFault, Seq<u8>)>,
> {
    lines.map_values(|line: Seq<char>| line_text(name, line, pretty))
}

/// A line that fails harms no other: put any line in the place of one line
/// of a stream, and every other line gives what it gave before. The stream
/// gives as many outcomes as it has lines, whatever the lines are.
pub proof fn lemma_lines_stand_alone(
    name: DecodeType,
    lines: Seq<Seq<char>>,
    pretty: bool,
    at: int,
    other: Seq<char>,
)
    requires
        0 <= at < lines.len(),
    ensures
        stream_texts(name, lines, pretty).len() == lines.len(),
        stream_texts(name, lines.update(at, other), pretty) == stream_texts(
            name,
            lines,
            pretty,
        ).update(at, line_text(name, other, pretty)),
{
    assert(stream_texts(name, lines.update(at, other), pretty) =~= stream_texts(
        name,
        lines,
        pretty,
    ).update(at, line_text(name, other, pretty)));
}

} // verus!

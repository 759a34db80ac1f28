//! Setting aside a record that could not be read.
//!
//! A record that fails is not lost: its bytes go to a side file of their own,
//! and the stream goes on. The library decides what is written and under
//! which name; writing the file is the caller's part.

use vstd::prelude::*;
use vstd::string::StringExecFns;
use rand::distributions::Alphanumeric;
use rand::Rng;
use crate::decode::{CodecError, CodecFault};

verus! {

/// A line of a stream is not base64. The reason is the decoder's own.
#[derive(Debug, Clone)]
pub struct EncodingError {
    pub reason: String,
}

/// Why a record gave no message.
#[derive(Debug, Clone)]
pub enum RecordError {
    /// The line is not base64.
    Encoding(EncodingError),
    /// The line is base64, and its bytes are no message of the shape.
    Codec(CodecError),
}

/// The value of a [`RecordError`].
pub enum RecordFault {
    Encoding(Seq<char>),
    Codec(CodecFault),
}

impl View for RecordError {
    type V = RecordFault;

    open spec fn view(&self) -> RecordFault {
        match self {
            RecordError::Encoding(error) => RecordFault::Encoding(error.reason@),
            RecordError::Codec(error) => RecordFault::Codec(error@),
        }
    }
}

impl RecordFault {
    /// The words that report the fault: those of the layer that failed.
    pub open spec fn text(self) -> Seq<char> {
        match self {
            RecordFault::Encoding(reason) => reason,
            RecordFault::Codec(fault) => fault.text(),
        }
    }
}

impl RecordError {
    /// The words that report the error.
    pub fn message(&self) -> (text: String)
        ensures
            text@ == self@.text(),
    {
        match self {
            RecordError::Encoding(error) => error.reason.clone(),
            RecordError::Codec(error) => error.message(),
        }
    }
}

/// A record that was refused: why, and the bytes that are to be kept.
#[derive(Debug, Clone)]
pub struct Rejected {
    pub error: RecordError,
    pub bytes: Vec<u8>,
}

/// A refused record with the name of the side file that its bytes go to.
#[derive(Debug, Clone)]
pub struct Quarantine {
    pub error: RecordError,
    pub bytes: Vec<u8>,
    pub file_name: String,
}

/// How many characters the random part of a file name has.
pub const SUFFIX_LENGTH: usize = 7;

/// A digit or a letter of the ASCII alphabet, of either case.
pub open spec fn is_alphanumeric(c: char) -> bool {
    ||| '0' <= c <= '9'
    ||| 'a' <= c <= 'z'
    ||| 'A' <= c <= 'Z'
}

/// Whether a text can be the random part of a file name: seven letters and
/// digits.
pub open spec fn is_suffix(text: Seq<char>) -> bool {
    &&& text.len() == SUFFIX_LENGTH
    &&& forall|i: int| 0 <= i < text.len() ==> is_alphanumeric(#[trigger] text[i])
}

/// The file name with this random part: `otk.`, the random part, `.bin`.
pub open spec fn quarantine_name(suffix: Seq<char>) -> Seq<char> {
    "otk."@ + suffix + ".bin"@
}

/// Whether a text is the name of a side file.
pub open spec fn is_quarantine_name(name: Seq<char>) -> bool {
    exists|suffix: Seq<char>| is_suffix(suffix) && name == quarantine_name(suffix)
}

/// Draws `count` characters from `rand::distributions::Alphanumeric` with the
/// thread's generator. Each draw gives one of the 62 ASCII letters and
/// digits. Which ones is a matter of chance, and nothing is said of it.
#[verifier::external_body]
pub(crate) fn random_alphanumeric(count: usize) -> (text: String)
    ensures
        text@.len() == count,
        forall|i: int| 0 <= i < text@.len() ==> is_alphanumeric(#[trigger] text@[i]),
{
    rand::thread_rng().sample_iter(&Alphanumeric).take(count).map(char::from).collect()
}

/// The name of the side file with this random part.
pub fn quarantine_file_name(suffix: &str) -> (name: String)
    ensures
        name@ == quarantine_name(suffix@),
{
    String::from_str("otk.").concat(suffix).concat(".bin")
}

impl Rejected {
    /// Gives the refused record the side file whose name has this random
    /// part.
    pub fn quarantined_as(self, suffix: &str) -> (quarantine: Quarantine)
        ensures
            quarantine.error == self.error,
            quarantine.bytes == self.bytes,
            quarantine.file_name@ == quarantine_name(suffix@),
    {
        Quarantine { error: self.error, bytes: self.bytes, file_name: quarantine_file_name(suffix) }
    }

    /// Gives the refused record a side file under a fresh random name. The
    /// name is not checked against the files that exist: two records get the
    /// same name only if chance draws the same seven characters twice.
    pub fn quarantined(self) -> (quarantine: Quarantine)
        ensures
            quarantine.error == self.error,
            quarantine.bytes == self.bytes,
            is_quarantine_name(quarantine.file_name@),
    {
        let suffix = random_alphanumeric(SUFFIX_LENGTH);
        assert(is_suffix(suffix@));
        self.quarantined_as(suffix.as_str())
    }
}

impl Quarantine {
    /// What is said of the failure.
    pub open spec fn complaint_text(&self) -> Seq<char> {
        "error during decoding: "@ + self.error@.text()
    }

    /// What is said of the side file.
    pub open spec fn notice_text(&self) -> Seq<char> {
        "data dumped as "@ + self.file_name@
    }

    /// The line that reports the failure.
    pub fn complaint(&self) -> (line: String)
        ensures
            line@ == self.complaint_text(),
    {
        String::from_str("error during decoding: ").concat(self.error.message().as_str())
    }

    /// The line that names the side file.
    pub fn notice(&self) -> (line: String)
        ensures
            line@ == self.notice_text(),
    {
        String::from_str("data dumped as ").concat(self.file_name.as_str())
    }
}

} // verus!

//! Base64: the text form in which a stream carries one payload per line.
//!
//! The decoder is that of the `base64` crate, with the standard alphabet and
//! padding. Nothing in this file is proved.

use vstd::prelude::*;
use vstd::utf8::encode_utf8;

verus! {

/// `base64::DecodeError`: why a text is not base64.
#[verifier::external_type_specification]
#[verifier::external_body]
pub struct ExBase64DecodeError(base64::DecodeError);

/// What `base64::decode_config` returns for this text under
/// `base64::STANDARD`: the bytes that the text stands for, or the first
/// thing wrong with it.
pub uninterp spec fn base64_decoding(text: Seq<char>) -> Result<Seq<u8>, base64::DecodeError>;

/// The text that the `base64` crate gives for a decoding error.
pub uninterp spec fn base64_error_text(error: base64::DecodeError) -> Seq<char>;

/// Whether a text is short enough for the decoder: no longer, in bytes, than
/// an allocation can be. The decoder computes the sizes of its buffers from
/// the length of the text and panics where one of them does not fit, so a
/// longer text is never handed to it.
pub open spec fn decodable_length(text: Seq<char>) -> bool {
    encode_utf8(text).len() <= isize::MAX
}

/// Calls `base64::decode_config` with `base64::STANDARD`. The decoder reads
/// nothing but the text, so equal texts give equal results.
#[verifier::external_body]
pub(crate) fn base64_decode(text: &str) -> (decoded: Result<Vec<u8>, base64::DecodeError>)
    requires
        decodable_length(text@),
    ensures
        match decoded {
            Ok(bytes) => base64_decoding(text@) == Ok::<Seq<u8>, base64::DecodeError>(bytes@),
            Err(error) => base64_decoding(text@) == Err::<Seq<u8>, base64::DecodeError>(error),
        },
{
    base64::decode_config(text, base64::STANDARD)
}

/// Calls `to_string` on a decoding error, which goes through its `Display`
/// impl.
#[verifier::external_body]
pub(crate) fn base64_error_message(error: &base64::DecodeError) -> (text: String)
    ensures
        text@ == base64_error_text(*error),
{
    error.to_string()
}

} // verus!

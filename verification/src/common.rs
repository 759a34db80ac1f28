//! What the commands share.

use vstd::prelude::*;
use vstd::string::{StrSliceExecFns, StringExecFns};
use crate::otk_error::{OTKError, OTKFault};
use crate::text::same_text;

verus! {

/// Where a command reads from.
#[derive(Debug, Clone)]
pub enum Source {
    /// The standard input.
    Stdin,
    /// The file at this path.
    File(String),
}

/// The source that an input argument names: `-` is the standard input, and
/// anything else is the path of a file.
pub fn input_source(input: &str) -> (source: Source)
    ensures
        match source {
            Source::Stdin => input@ == "-"@,
            Source::File(path) => input@ != "-"@ && path@ == input@,
        },
{
    if same_text(input, "-") {
        Source::Stdin
    } else {
        Source::File(String::from_str(input))
    }
}

/// A key and its value, as given on the command line in the form `key=value`.
#[derive(Debug, Clone)]
pub struct KeyValue {
    pub k: String,
    pub v: String,
}

/// What is said of a text that holds no `=`.
pub open spec fn pair_format_complaint() -> Seq<char> {
    "invalid format (expect key=value)"@
}

impl KeyValue {
    /// Whether `text` is the key, an equals sign and the value, the key
    /// holding no equals sign itself. So the first `=` of the text parts key
    /// from value, and the value may hold further ones.
    pub open spec fn spells(key: Seq<char>, value: Seq<char>, text: Seq<char>) -> bool {
        &&& text == key + seq!['='] + value
        &&& !key.contains('=')
    }

    /// Parts a text of the form `key=value` at its first equals sign. A text
    /// without one is refused.
    pub fn parse(s: &str) -> (parsed: Result<KeyValue, OTKError>)
        ensures
            match parsed {
                Ok(pair) => KeyValue::spells(pair.k@, pair.v@, s@),
                Err(error) => {
                    &&& !s@.contains('=')
                    &&& error@ == OTKFault::ParseError(pair_format_complaint())
                },
            },
    {
        let count = s.unicode_len();
        let mut i: usize = 0;
        while i < count
            invariant
                i <= count,
                count == s@.len(),
                forall|j: int| 0 <= j < i ==> s@[j] != '=',
            decreases count - i,
        {
            if s.get_char(i) == '=' {
                let key = s.substring_char(0, i);
                let value = s.substring_char(i + 1, count);
                assert(s@ =~= key@ + seq!['='] + value@);
                return Ok(KeyValue { k: String::from_str(key), v: String::from_str(value) });
            }
            i += 1;
        }
        Err(OTKError::ParseError(String::from_str("invalid format (expect key=value)")))
    }
}

impl std::str::FromStr for KeyValue {
    type Err = OTKError;

    fn from_str(s: &str) -> (parsed: Result<KeyValue, OTKError>)
        ensures
            match parsed {
                Ok(pair) => KeyValue::spells(pair.k@, pair.v@, s@),
                Err(error) => {
                    &&& !s@.contains('=')
                    &&& error@ == OTKFault::ParseError(pair_format_complaint())
                },
            },
    {
        KeyValue::parse(s)
    }
}

} // verus!

//! Numbers in decimal, written and read.

use vstd::prelude::*;
use vstd::string::{StrSliceExecFns, StringExecFns};

verus! {

/// The ten digits.
pub open spec fn decimal_digits() -> Seq<char> {
    "0123456789"@
}

/// Whether a character is one of the ten digits.
pub open spec fn is_digit(c: char) -> bool {
    '0' <= c <= '9'
}

/// The number that a digit stands for.
pub open spec fn digit_value(c: char) -> nat {
    (c as nat - '0' as nat) as nat
}

/// A number in decimal: its digits, the highest first, without a sign and
/// without leading zeros.
pub open spec fn decimal(n: nat) -> Seq<char>
    decreases n,
{
    if n < 10 {
        seq![decimal_digits()[n as int]]
    } else {
        decimal(n / 10).push(decimal_digits()[(n % 10) as int])
    }
}

/// The number that a row of digits stands for, read as decimal.
pub open spec fn digits_value(digits: Seq<char>) -> nat
    decreases digits.len(),
{
    if digits.len() == 0 {
        0
    } else {
        digits_value(digits.drop_last()) * 10 + digit_value(digits.last())
    }
}

/// Whether a text is a row of digits, at least one.
pub open spec fn is_number(text: Seq<char>) -> bool {
    &&& text.len() > 0
    &&& forall|i: int| 0 <= i < text.len() ==> is_digit(#[trigger] text[i])
}

/// The digit for a number below ten.
fn digit(n: u64) -> (text: &'static str)
    requires
        n < 10,
    ensures
        text@ == seq![decimal_digits()[n as int]],
{
    proof {
        reveal_strlit("0123456789");
        reveal_strlit("0");
        reveal_strlit("1");
        reveal_strlit("2");
        reveal_strlit("3");
        reveal_strlit("4");
        reveal_strlit("5");
        reveal_strlit("6");
        reveal_strlit("7");
        reveal_strlit("8");
        reveal_strlit("9");
    }
    let text = if n == 0 {
        "0"
    } else if n == 1 {
        "1"
    } else if n == 2 {
        "2"
    } else if n == 3 {
        "3"
    } else if n == 4 {
        "4"
    } else if n == 5 {
        "5"
    } else if n == 6 {
        "6"
    } else if n == 7 {
        "7"
    } else if n == 8 {
        "8"
    } else {
        "9"
    };
    assert(text@ =~= seq![decimal_digits()[n as int]]);
    text
}

/// Writes a number in decimal.
pub fn to_decimal(n: u64) -> (text: String)
    ensures
        text@ == decimal(n as nat),
    decreases n,
{
    if n < 10 {
        String::from_str(digit(n))
    } else {
        let text = to_decimal(n / 10).concat(digit(n % 10));
        assert(text@ =~= decimal(n as nat));
        text
    }
}

/// A number in decimal is a row of digits, and read back it is the number.
pub proof fn lemma_decimal_reads_back(n: nat)
    ensures
        is_number(decimal(n)),
        digits_value(decimal(n)) == n,
    decreases n,
{
    reveal_strlit("0123456789");
    if n < 10 {
        let text = decimal(n);
        assert(text.drop_last() =~= Seq::<char>::empty());
        assert(digits_value(text.drop_last()) == 0);
    } else {
        lemma_decimal_reads_back(n / 10);
        let text = decimal(n);
        assert(text.drop_last() =~= decimal(n / 10));
        assert(text.last() == decimal_digits()[(n % 10) as int]);
    }
}

/// The number that a text stands for where no sign but `+` may lead it: an
/// optional `+`, then a row of digits whose value is at most `max`. Leading
/// zeros count for nothing. Any other text stands for no number.
pub open spec fn unsigned_of(text: Seq<char>, max: nat) -> Option<nat> {
    let digits = if text.len() > 0 && text[0] == '+' {
        text.skip(1)
    } else {
        text
    };
    if is_number(digits) && digits_value(digits) <= max {
        Some(digits_value(digits))
    } else {
        None
    }
}

/// The number that a text stands for where either sign may lead it: `-` and
/// a row of digits for a number down to `-2^63`, or what [`unsigned_of`]
/// takes for a number up to `2^63 - 1`.
pub open spec fn signed_of(text: Seq<char>) -> Option<int> {
    if text.len() > 0 && text[0] == '-' {
        let digits = text.skip(1);
        if is_number(digits) && digits_value(digits) <= 0x8000_0000_0000_0000 {
            Some(-(digits_value(digits) as int))
        } else {
            None
        }
    } else {
        match unsigned_of(text, 0x7fff_ffff_ffff_ffff) {
            Some(n) => Some(n as int),
            None => None,
        }
    }
}

/// A longer row of digits stands for no smaller number than its beginning.
proof fn lemma_value_grows(digits: Seq<char>, i: int)
    requires
        0 <= i <= digits.len(),
    ensures
        digits_value(digits.take(i)) <= digits_value(digits),
    decreases digits.len() - i,
{
    if i == digits.len() {
        assert(digits.take(i) =~= digits);
    } else {
        lemma_value_grows(digits, i + 1);
        assert(digits.take(i + 1).drop_last() =~= digits.take(i));
    }
}

/// Reads the characters of `text` from `start` on as a row of digits with a
/// value of at most `max`.
fn read_digits(text: &str, start: usize, max: u64) -> (value: Option<u64>)
    requires
        text.is_ascii(),
        start <= text@.len(),
    ensures
        value == (if is_number(text@.skip(start as int)) && digits_value(text@.skip(start as int))
            <= max {
            Some(digits_value(text@.skip(start as int)) as u64)
        } else {
            None
        }),
{
    let count = text.unicode_len();
    let ghost digits = text@.skip(start as int);
    if start == count {
        return None;
    }
    let mut value: u64 = 0;
    let mut i: usize = start;
    assert(digits.take(0) =~= Seq::<char>::empty());
    while i < count
        invariant
            text.is_ascii(),
            count == text@.len(),
            start < count,
            start <= i <= count,
            digits == text@.skip(start as int),
            value == digits_value(digits.take(i - start)),
            value <= max,
            forall|j: int| 0 <= j < i - start ==> is_digit(#[trigger] digits[j]),
        decreases count - i,
    {
        let byte = text.get_ascii(i);
        assert(digits[i - start] == text@[i as int]);
        if byte < 48 || byte > 57 {
            assert(!is_digit(digits[i - start]));
            return None;
        }
        let d: u64 = (byte - 48) as u64;
        proof {
            assert(is_digit(digits[i - start]));
            assert(d == digit_value(digits[i - start]));
            assert(digits.take(i - start + 1).drop_last() =~= digits.take(i - start));
            assert(digits.take(i - start + 1).last() == digits[i - start]);
            assert(digits_value(digits.take(i - start + 1)) == value * 10 + d);
            lemma_value_grows(digits, i - start + 1);
        }
        if d > max || value > (max - d) / 10 {
            assert(value * 10 + d > max);
            return None;
        }
        value = value * 10 + d;
        i += 1;
    }
    assert(digits.take(count - start) =~= digits);
    Some(value)
}

/// Reads a number that no sign but `+` may lead, of at most `max`.
pub fn parse_unsigned(text: &str, max: u64) -> (value: Option<u64>)
    ensures
        match value {
            Some(n) => unsigned_of(text@, max as nat) == Some(n as nat),
            None => unsigned_of(text@, max as nat) is None,
        },
{
    if !text.is_ascii() {
        proof {
            lemma_number_is_ascii(text@);
        }
        return None;
    }
    if text.unicode_len() > 0 && text.get_ascii(0) == 43 {
        read_digits(text, 1, max)
    } else {
        assert(text@.skip(0) =~= text@);
        read_digits(text, 0, max)
    }
}

/// Reads a number that either sign may lead, from `-2^63` to `2^63 - 1`.
pub fn parse_signed(text: &str) -> (value: Option<i64>)
    ensures
        match value {
            Some(n) => signed_of(text@) == Some(n as int),
            None => signed_of(text@) is None,
        },
{
    if !text.is_ascii() {
        proof {
            lemma_number_is_ascii(text@);
        }
        return None;
    }
    if text.unicode_len() > 0 && text.get_ascii(0) == 45 {
        match read_digits(text, 1, 0x8000_0000_0000_0000) {
            Some(size) => {
                if size == 0x8000_0000_0000_0000 {
                    Some(i64::MIN)
                } else {
                    Some(-(size as i64))
                }
            },
            None => None,
        }
    } else if text.unicode_len() > 0 && text.get_ascii(0) == 43 {
        match read_digits(text, 1, 0x7fff_ffff_ffff_ffff) {
            Some(size) => Some(size as i64),
            None => None,
        }
    } else {
        assert(text@.skip(0) =~= text@);
        match read_digits(text, 0, 0x7fff_ffff_ffff_ffff) {
            Some(size) => Some(size as i64),
            None => None,
        }
    }
}

/// A text that holds a character beyond ASCII stands for no number.
proof fn lemma_number_is_ascii(text: Seq<char>)
    requires
        !vstd::utf8::is_ascii_chars(text),
    ensures
        unsigned_of(text, u64::MAX as nat) is None,
        forall|max: nat| unsigned_of(text, max) is None,
        signed_of(text) is None,
{
    let i = choose|i: int| 0 <= i < text.len() && !('\0' <= #[trigger] text[i] <= '\u{7f}');
    assert(!is_digit(text[i]));
    assert(text[i] != '+' && text[i] != '-');
    if i > 0 {
        assert(text.skip(1)[i - 1] == text[i]);
    }
}

} // verus!

//! Bytes in hexadecimal, as trace identifiers are written.

use vstd::prelude::*;
use hex::ToHex;

verus! {

/// The sixteen digits, lower case.
pub open spec fn digits() -> Seq<char> {
    "0123456789abcdef"@
}

/// The bytes in hexadecimal: two lower-case digits for each byte, the high
/// half first.
pub open spec fn lower_hex(bytes: Seq<u8>) -> Seq<char> {
    Seq::new(
        2 * bytes.len(),
        |i: int|
            if i % 2 == 0 {
                digits()[bytes[i / 2] as int / 16]
            } else {
                digits()[bytes[i / 2] as int % 16]
            },
    )
}

/// Calls `hex::ToHex::encode_hex` on the bytes, collecting into a `String`.
/// The `hex` crate writes, for each byte in turn, the digit of its high four
/// bits and then that of its low four bits, from the table
/// `0123456789abcdef`.
#[verifier::external_body]
pub(crate) fn encode_lower_hex(bytes: &[u8]) -> (text: String)
    ensures
        text@ == lower_hex(bytes@),
{
    bytes.encode_hex::<String>()
}

/// Text in hexadecimal is twice as long as the bytes and holds only the
/// sixteen lower-case digits.
pub proof fn lemma_lower_hex_shape(bytes: Seq<u8>)
    ensures
        lower_hex(bytes).len() == 2 * bytes.len(),
        forall|i: int|
            0 <= i < lower_hex(bytes).len() ==> digits().contains(#[trigger] lower_hex(bytes)[i]),
{
    reveal_strlit("0123456789abcdef");
    assert forall|i: int| 0 <= i < lower_hex(bytes).len() implies digits().contains(
        #[trigger] lower_hex(bytes)[i],
    ) by {
        let byte = bytes[i / 2] as int;
        let digit = if i % 2 == 0 { byte / 16 } else { byte % 16 };
        assert(0 <= digit < 16);
        assert(lower_hex(bytes)[i] == digits()[digit]);
    }
}

/// Different bytes are written differently.
pub proof fn lemma_lower_hex_is_injective(a: Seq<u8>, b: Seq<u8>)
    requires
        lower_hex(a) == lower_hex(b),
    ensures
        a == b,
{
    reveal_strlit("0123456789abcdef");
    assert(lower_hex(a).len() == 2 * a.len());
    assert(lower_hex(b).len() == 2 * b.len());
    assert(a.len() == b.len());
    assert forall|k: int| 0 <= k < a.len() implies a[k] == b[k] by {
        let x = a[k] as int;
        let y = b[k] as int;
        assert(lower_hex(a)[2 * k] == digits()[x / 16]);
        assert(lower_hex(b)[2 * k] == digits()[y / 16]);
        assert(lower_hex(a)[2 * k + 1] == digits()[x % 16]);
        assert(lower_hex(b)[2 * k + 1] == digits()[y % 16]);
        lemma_digits_differ(x / 16, y / 16);
        lemma_digits_differ(x % 16, y % 16);
    }
    assert(a =~= b);
}

/// The sixteen digits are sixteen different characters.
proof fn lemma_digits_differ(m: int, n: int)
    requires
        0 <= m < 16,
        0 <= n < 16,
        digits()[m] == digits()[n],
    ensures
        m == n,
{
    reveal_strlit("0123456789abcdef");
}

} // verus!

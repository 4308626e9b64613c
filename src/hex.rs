use vstd::prelude::*;

verus! {

/// The upper-case hexadecimal digit of a value below sixteen.
pub open spec fn hex_digit(n: u8) -> char {
    if n < 10 {
        ((n + 48) as u8) as char
    } else {
        ((n + 55) as u8) as char
    }
}

/// Upper-case hexadecimal rendering: two digits per byte, high nibble first.
pub open spec fn hex_upper(b: Seq<u8>) -> Seq<char> {
    Seq::new(
        2 * b.len(),
        |i: int|
            if i % 2 == 0 {
                hex_digit(b[i / 2] / 16)
            } else {
                hex_digit(b[i / 2] % 16)
            },
    )
}

/// A character among `0`-`9` and `A`-`F`.
pub open spec fn is_upper_hex_digit(c: char) -> bool {
    ('0' <= c && c <= '9') || ('A' <= c && c <= 'F')
}

/// Every character of `s` is an upper-case hexadecimal digit.
pub open spec fn is_upper_hex(s: Seq<char>) -> bool {
    forall|i: int| 0 <= i < s.len() ==> #[trigger] is_upper_hex_digit(s[i])
}

/// The rendering of any byte sequence is twice as long and made of
/// upper-case hexadecimal digits only.
pub proof fn lemma_hex_upper_shape(b: Seq<u8>)
    ensures
        hex_upper(b).len() == 2 * b.len(),
        is_upper_hex(hex_upper(b)),
{
    let h = hex_upper(b);
    assert forall|i: int| 0 <= i < h.len() implies #[trigger] is_upper_hex_digit(h[i]) by {
        let x = b[i / 2];
        let n: u8 = if i % 2 == 0 { x / 16 } else { x % 16 };
        assert(n < 16);
        assert(h[i] == hex_digit(n));
    }
}

/// Relies on `data_encoding::HEXUPPER.encode`: each byte becomes two digits of
/// `0123456789ABCDEF`, the high nibble first. It panics on inputs longer than
/// `usize::MAX / 512` bytes, which `requires` leaves out.
#[verifier::external_body]
pub(crate) fn encode_hex_upper(b: &[u8]) -> (r: String)
    requires
        b@.len() <= usize::MAX / 512,
    ensures
        r@ == hex_upper(b@),
{
    data_encoding::HEXUPPER.encode(b)
}

} // verus!

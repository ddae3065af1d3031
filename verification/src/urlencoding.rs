//! Percent-encoding for the values of a connection URI.

use vstd::prelude::*;
use vstd::string::*;

verus! {

/// Whether a byte stands for itself in a URI: an ASCII letter or digit, or
/// one of `-`, `_`, `.`, `~`.
pub open spec fn is_unreserved(b: u8) -> bool {
    (0x61 <= b <= 0x7a) || (0x41 <= b <= 0x5a) || (0x30 <= b <= 0x39) || b == 0x2d || b == 0x5f || b
        == 0x2e || b == 0x7e
}

/// The upper-case hexadecimal digit for a value below sixteen.
pub open spec fn hex_digit(n: u8) -> char {
    if n < 10 {
        (0x30 + n) as u8 as char
    } else {
        (0x41 + (n - 10)) as u8 as char
    }
}

/// One byte, encoded: itself if it is unreserved, and otherwise a percent
/// sign and its two hexadecimal digits.
pub open spec fn encode_byte(b: u8) -> Seq<char> {
    if is_unreserved(b) {
        seq![b as char]
    } else {
        seq!['%', hex_digit(b / 16), hex_digit(b % 16)]
    }
}

/// The bytes, encoded one after the other.
pub open spec fn encode_bytes(bytes: Seq<u8>) -> Seq<char>
    decreases bytes.len(),
{
    if bytes.len() == 0 {
        Seq::empty()
    } else {
        encode_bytes(bytes.drop_last()) + encode_byte(bytes.last())
    }
}

/// The characters of `s`, as UTF-8 bytes, encoded.
pub open spec fn encoded(s: Seq<char>) -> Seq<char> {
    encode_bytes(vstd::utf8::encode_utf8(s))
}

/// Whether a character may stand in an encoded value: an unreserved
/// character or a percent sign.
pub open spec fn is_encoded_char(c: char) -> bool {
    c == '%' || (c as u32 <= 0x7f && is_unreserved(c as u8))
}

/// An encoded value holds nothing that could end it or split it: no `&`, no
/// `=`, no `?`, no `#`, no space.
pub proof fn lemma_encoded_is_clean(bytes: Seq<u8>)
    ensures
        forall|i: int| 0 <= i < encode_bytes(bytes).len() ==> is_encoded_char(#[trigger] encode_bytes(bytes)[i]),
    decreases bytes.len(),
{
    if bytes.len() > 0 {
        lemma_encoded_is_clean(bytes.drop_last());
        let front = encode_bytes(bytes.drop_last());
        let last = encode_byte(bytes.last());
        let b = bytes.last();
        assert forall|i: int| 0 <= i < last.len() implies is_encoded_char(#[trigger] last[i]) by {
            if !is_unreserved(b) {
                assert(b / 16 < 16 && b % 16 < 16);
            }
        }
        assert forall|i: int| 0 <= i < encode_bytes(bytes).len() implies is_encoded_char(
            #[trigger] encode_bytes(bytes)[i],
        ) by {
            if i < front.len() {
                assert(encode_bytes(bytes)[i] == front[i]);
            } else {
                assert(encode_bytes(bytes)[i] == last[i - front.len()]);
            }
        }
    }
}

fn upper_hex(n: u8) -> (c: char)
    requires
        n < 16,
    ensures
        c == hex_digit(n),
{
    if n < 10 {
        (0x30 + n) as char
    } else {
        (0x41 + (n - 10)) as char
    }
}

/// Percent-encodes the UTF-8 bytes of `s`.
pub fn encode(s: &str) -> (encoded: String)
    ensures
        encoded@ == self::encoded(s@),
{
    let bytes = s.as_bytes();
    let mut out = String::new();
    let mut i: usize = 0;
    assert(bytes@.take(0) == Seq::<u8>::empty());
    while i < bytes.len()
        invariant
            i <= bytes@.len(),
            out@ == encode_bytes(bytes@.take(i as int)),
        decreases bytes@.len() - i,
    {
        let b = bytes[i];
        proof {
            assert(bytes@.take(i + 1).drop_last() == bytes@.take(i as int));
            assert(bytes@.take(i + 1).last() == b);
        }
        let plain = (0x61 <= b && b <= 0x7a) || (0x41 <= b && b <= 0x5a) || (0x30 <= b && b <= 0x39) || b
            == 0x2d || b == 0x5f || b == 0x2e || b == 0x7e;
        if plain {
            out.push(b as char);
            assert(out@ == encode_bytes(bytes@.take(i as int)) + seq![b as char]);
        } else {
            out.push('%');
            out.push(upper_hex(b / 16));
            out.push(upper_hex(b % 16));
            assert(out@ == encode_bytes(bytes@.take(i as int)) + seq!['%', hex_digit(b / 16), hex_digit(b % 16)]);
        }
        i += 1;
    }
    assert(bytes@.take(bytes@.len() as int) == bytes@);
    out
}

} // verus!

//! Small string helpers shared by the other modules.

use vstd::prelude::*;
use vstd::string::*;

verus! {

/// Trusted: `String::push` appends exactly the given character.
pub assume_specification[ String::push ](s: &mut String, c: char)
    ensures
        final(s)@ == old(s)@.push(c),
;

/// Whether two string slices hold the same characters.
pub fn str_eq(a: &str, b: &str) -> (same: bool)
    ensures
        same == (a@ == b@),
{
    a.to_owned() == b.to_owned()
}

/// A fresh `String` holding the characters of `s`.
pub fn owned(s: &str) -> (r: String)
    ensures
        r@ == s@,
{
    s.to_owned()
}

/// The two pieces joined into a fresh `String`.
pub fn join2(a: &str, b: &str) -> (r: String)
    ensures
        r@ == a@ + b@,
{
    let mut out = a.to_owned();
    out.append(b);
    out
}

/// The character for one digit below sixteen, in lower case.
pub open spec fn digit_char(d: nat) -> char {
    if d < 10 {
        (0x30 + d) as u8 as char
    } else {
        (0x61 + (d - 10)) as u8 as char
    }
}

/// The digits of `n` in the given base, most significant first, without
/// leading zeros; zero is written as one digit.
pub open spec fn radix_digits(n: nat, base: nat) -> Seq<char>
    recommends
        2 <= base <= 16,
    decreases n,
{
    if base < 2 || n < base {
        seq![digit_char(n)]
    } else {
        proof {
            assert(n / base < n) by (nonlinear_arith)
                requires
                    base >= 2,
                    n >= base,
            ;
        }
        radix_digits(n / base, base).push(digit_char(n % base))
    }
}

/// The characters of `rev`, last first.
spec fn backwards(rev: Seq<char>) -> Seq<char> {
    Seq::new(rev.len(), |j: int| rev[rev.len() - 1 - j])
}

pub(crate) fn digit(d: u8) -> (c: char)
    requires
        d < 16,
    ensures
        c == digit_char(d as nat),
{
    if d < 10 {
        (0x30 + d) as char
    } else {
        (0x61 + (d - 10)) as char
    }
}

/// Writes `n` in the given base, in lower case.
fn to_radix(n: u128, base: u8) -> (s: String)
    requires
        2 <= base <= 16,
    ensures
        s@ == radix_digits(n as nat, base as nat),
{
    let wide = base as u128;
    let mut rev: Vec<char> = Vec::new();
    let mut m = n;
    assert(radix_digits(m as nat, base as nat) + backwards(rev@) =~= radix_digits(n as nat, base as nat));
    while m >= wide
        invariant
            2 <= base <= 16,
            wide == base,
            radix_digits(n as nat, base as nat) == radix_digits(m as nat, base as nat) + backwards(rev@),
        decreases m,
    {
        let d = (m % wide) as u8;
        let ghost before = rev@;
        let ghost m0 = m;
        rev.push(digit(d));
        m = m / wide;
        assert(backwards(rev@) =~= seq![digit_char(d as nat)] + backwards(before));
        assert(radix_digits(m0 as nat, base as nat) == radix_digits(m as nat, base as nat).push(
            digit_char(d as nat),
        ));
        assert(radix_digits(m as nat, base as nat).push(digit_char(d as nat)) + backwards(before)
            =~= radix_digits(m as nat, base as nat) + (seq![digit_char(d as nat)] + backwards(before)));
    }
    let ghost before = rev@;
    rev.push(digit(m as u8));
    assert(backwards(rev@) =~= seq![digit_char(m as nat)] + backwards(before));
    assert(radix_digits(m as nat, base as nat) =~= seq![digit_char(m as nat)]);
    let mut out = String::new();
    let mut k: usize = rev.len();
    while k > 0
        invariant
            k <= rev@.len(),
            out@ == backwards(rev@).take(rev@.len() - k),
        decreases k,
    {
        k -= 1;
        let ghost shown = out@;
        out.push(rev[k]);
        assert(out@ =~= backwards(rev@).take(rev@.len() - k));
    }
    assert(backwards(rev@).take(rev@.len() as int) =~= backwards(rev@));
    out
}

/// Writes `n` in decimal.
pub fn decimal(n: u64) -> (s: String)
    ensures
        s@ == radix_digits(n as nat, 10),
{
    to_radix(n as u128, 10)
}

/// Writes `n` in hexadecimal, in lower case.
pub fn lower_hex(n: u128) -> (s: String)
    ensures
        s@ == radix_digits(n as nat, 16),
{
    to_radix(n, 16)
}

} // verus!

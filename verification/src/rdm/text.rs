//! Text: numbers in decimal and the UTF-8 bytes of texts built from pieces.

use crate::rdm::utils::extend_from;
use vstd::prelude::*;
use vstd::utf8::{encode_utf8, is_ascii_chars};

verus! {

/// The character of a decimal digit.
pub open spec fn spec_digit(d: nat) -> char {
    (d + 48) as char
}

/// A number in decimal, as `{}` formats it.
pub open spec fn spec_decimal(n: nat) -> Seq<char>
    decreases n,
{
    if n < 10 {
        seq![spec_digit(n)]
    } else {
        spec_decimal(n / 10).push(spec_digit(n % 10))
    }
}

/// The UTF-8 encoding of two texts one after the other is the encoding of the first followed by
/// that of the second.
pub proof fn lemma_encode_utf8_concat(a: Seq<char>, b: Seq<char>)
    ensures
        encode_utf8(a + b) == encode_utf8(a) + encode_utf8(b),
    decreases a.len(),
{
    if a.len() == 0 {
        assert(a + b =~= b);
        assert(encode_utf8(a) + encode_utf8(b) =~= encode_utf8(b));
    } else {
        lemma_encode_utf8_concat(a.drop_first(), b);
        assert((a + b).drop_first() =~= a.drop_first() + b);
        assert((a + b)[0] == a[0]);
        assert(encode_utf8(a + b) =~= encode_utf8(a) + encode_utf8(b));
    }
}

/// A text made of two texts of ASCII characters is of ASCII characters.
pub proof fn lemma_ascii_concat(a: Seq<char>, b: Seq<char>)
    requires
        is_ascii_chars(a),
        is_ascii_chars(b),
    ensures
        is_ascii_chars(a + b),
{
    assert forall|i| 0 <= i < (a + b).len() implies '\0' <= #[trigger] (a + b)[i] <= '\u{7f}' by {
        if i < a.len() {
            assert((a + b)[i] == a[i]);
        } else {
            assert((a + b)[i] == b[i - a.len()]);
        }
    }
}

/// A number in decimal has at most five digits below 65536, and they are ASCII characters.
pub proof fn lemma_decimal(n: nat)
    ensures
        is_ascii_chars(spec_decimal(n)),
        1 <= spec_decimal(n).len(),
        n < 10 ==> spec_decimal(n).len() == 1,
        n < 100 ==> spec_decimal(n).len() <= 2,
        n < 1000 ==> spec_decimal(n).len() <= 3,
        n < 10000 ==> spec_decimal(n).len() <= 4,
        n < 100000 ==> spec_decimal(n).len() <= 5,
    decreases n,
{
    if n < 10 {
        assert(spec_decimal(n) =~= seq![spec_digit(n)]);
        assert(spec_decimal(n)[0] == spec_digit(n));
    } else {
        lemma_decimal(n / 10);
        lemma_ascii_concat(spec_decimal(n / 10), seq![spec_digit(n % 10)]);
        assert(spec_decimal(n) =~= spec_decimal(n / 10) + seq![spec_digit(n % 10)]);
    }
}

/// The UTF-8 encoding of a decimal digit is its ASCII byte.
pub proof fn lemma_encode_digit(d: nat)
    requires
        d < 10,
    ensures
        encode_utf8(seq![spec_digit(d)]) == seq![(d + 48) as u8],
{
    let c = spec_digit(d);
    let v = c as u32;
    assert(v == d + 48);
    assert(v & 0x7f == v) by (bit_vector)
        requires
            v < 128,
    ;
    assert(seq![c].drop_first() =~= Seq::<char>::empty());
    assert(seq![c][0] == c);
    assert(encode_utf8(Seq::<char>::empty()) =~= Seq::<u8>::empty());
    assert(vstd::utf8::encode_scalar(v) =~= seq![(v & 0x7f) as u8]);
    assert(encode_utf8(seq![c]) =~= seq![(d + 48) as u8]);
}

/// Appends the UTF-8 bytes of a text.
pub fn push_text(out: &mut Vec<u8>, s: &str)
    ensures
        final(out)@ == old(out)@ + encode_utf8(s@),
{
    extend_from(out, s.as_bytes());
}

/// Appends a number in decimal.
pub fn push_decimal(out: &mut Vec<u8>, n: u64)
    ensures
        final(out)@ == old(out)@ + encode_utf8(spec_decimal(n as nat)),
    decreases n,
{
    let ghost start = out@;
    if n >= 10 {
        push_decimal(out, n / 10);
    }
    let digit: u8 = (n % 10) as u8 + 48;
    out.push(digit);
    proof {
        lemma_encode_digit((n % 10) as nat);
        if n >= 10 {
            lemma_encode_utf8_concat(spec_decimal((n / 10) as nat), seq![spec_digit((n % 10) as nat)]);
            assert(spec_decimal(n as nat) =~= spec_decimal((n / 10) as nat) + seq![spec_digit((n % 10) as nat)]);
        } else {
            assert(spec_decimal(n as nat) =~= seq![spec_digit(n as nat)]);
        }
        assert(out@ =~= start + encode_utf8(spec_decimal(n as nat)));
    }
}

} // verus!

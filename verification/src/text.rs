//! Text conversions the pipeline relies on: reading a decimal `u32` and
//! checking that received bytes are UTF-8.
use vstd::prelude::*;
use vstd::utf8::{decode_utf8, valid_utf8};

verus! {

/// `c` is one of the ASCII digits `0` to `9`.
pub open spec fn is_digit(c: char) -> bool {
    '0' <= c && c <= '9'
}

/// The value of a digit character.
pub open spec fn digit_value(c: char) -> nat {
    (c as nat - '0' as nat) as nat
}

/// The value of a string of decimal digits, most significant first.
pub open spec fn digits_value(s: Seq<char>) -> nat
    decreases s.len(),
{
    if s.len() == 0 {
        0
    } else {
        digits_value(s.drop_last()) * 10 + digit_value(s.last())
    }
}

/// The digits of a decimal numeral: the text after an optional leading `+`.
pub open spec fn numeral_digits(s: Seq<char>) -> Seq<char> {
    if s.len() > 0 && s[0] == '+' {
        s.drop_first()
    } else {
        s
    }
}

/// The `u32` that `s` denotes in decimal notation, if any: an optional `+`
/// followed by at least one ASCII digit and nothing else, with a value of at
/// most `u32::MAX`. Leading zeros are allowed; signs other than one leading
/// `+`, whitespace and underscores are not.
pub open spec fn decimal_u32(s: Seq<char>) -> Option<u32> {
    let d = numeral_digits(s);
    if d.len() > 0 && (forall|i: int| 0 <= i < d.len() ==> is_digit(#[trigger] d[i]))
        && digits_value(d) <= u32::MAX {
        Some(digits_value(d) as u32)
    } else {
        None
    }
}

/// The digit character for `d` (`0` to `9`).
pub open spec fn digit_char(d: nat) -> char
    recommends
        d < 10,
{
    (48 + d) as char
}

/// The usual decimal spelling of `n`: its digits, most significant first,
/// without leading zeros (`"0"` for zero).
pub open spec fn decimal_text(n: nat) -> Seq<char>
    decreases n,
{
    if n < 10 {
        seq![digit_char(n)]
    } else {
        decimal_text(n / 10).push(digit_char(n % 10))
    }
}

/// The decimal spelling of a number is all digits, is not empty, and has
/// that number as its value.
pub proof fn lemma_decimal_text(n: nat)
    ensures
        decimal_text(n).len() > 0,
        forall|i: int| 0 <= i < decimal_text(n).len() ==> is_digit(#[trigger] decimal_text(n)[i]),
        digits_value(decimal_text(n)) == n,
    decreases n,
{
    if n >= 10 {
        lemma_decimal_text(n / 10);
        let t = decimal_text(n / 10);
        let c = digit_char(n % 10);
        assert(decimal_text(n) == t.push(c));
        assert(t.push(c).drop_last() =~= t);
        assert(digit_value(c) == n % 10);
        assert((n / 10) * 10 + n % 10 == n) by (nonlinear_arith);
        assert(digits_value(t.push(c)) == digits_value(t) * 10 + digit_value(c));
        assert forall|i: int| 0 <= i < t.push(c).len() implies is_digit(#[trigger] t.push(c)[i]) by {
            if i < t.len() {
                assert(t.push(c)[i] == t[i]);
            }
        }
    } else {
        let c = digit_char(n);
        assert(seq![c].drop_last() =~= Seq::<char>::empty());
        assert(digit_value(c) == n);
        assert(digits_value(seq![c]) == digits_value(Seq::<char>::empty()) * 10 + digit_value(c));
    }
}

/// Every `u32`, zero included, written in decimal is read back as itself.
pub proof fn lemma_decimal_u32_reads_every_u32(n: u32)
    ensures
        decimal_u32(decimal_text(n as nat)) == Some(n),
{
    lemma_decimal_text(n as nat);
    let t = decimal_text(n as nat);
    assert(is_digit(t[0]));
    assert(numeral_digits(t) == t);
}

/// A text is refused as a `u32` when it is empty, is a lone `+`, holds any
/// character other than a digit (apart from one leading `+`), or spells a
/// number above `u32::MAX`.
pub proof fn lemma_decimal_u32_refuses(s: Seq<char>, i: int, n: nat)
    ensures
        s.len() == 0 ==> decimal_u32(s) is None,
        s == seq!['+'] ==> decimal_u32(s) is None,
        0 <= i < s.len() && !is_digit(s[i]) && !(i == 0 && s[i] == '+') ==> decimal_u32(s) is None,
        n > u32::MAX ==> decimal_u32(decimal_text(n)) is None,
        n > u32::MAX ==> decimal_u32(seq!['+'] + decimal_text(n)) is None,
{
    if s == seq!['+'] {
        assert(numeral_digits(s).len() == 0);
    }
    if 0 <= i < s.len() && !is_digit(s[i]) && !(i == 0 && s[i] == '+') {
        let d = numeral_digits(s);
        if s[0] == '+' {
            assert(d[i - 1] == s[i]);
        } else {
            assert(d[i] == s[i]);
        }
    }
    lemma_decimal_text(n);
    let t = decimal_text(n);
    assert(is_digit(t[0]));
    assert(numeral_digits(t) == t);
    assert((seq!['+'] + t).drop_first() =~= t);
}

/// `str::parse::<u32>` from std. Its documentation: the string must be an
/// optional `+` sign followed by only digits, with leading or trailing
/// non-digit characters (whitespace included) and underscores an error, and
/// a value above `u32::MAX` an overflow error. The contract states exactly
/// that, with every error reported as `None`.
#[verifier::external_body]
pub(crate) fn parse_u32(s: &str) -> (n: Option<u32>)
    ensures
        n == decimal_u32(s@),
{
    s.parse::<u32>().ok()
}

/// `String::from_utf8` from std: the text that `bytes` encode in UTF-8, or
/// `None` where they are not valid UTF-8 (the std error is dropped). The
/// contract takes UTF-8 validity and decoding as vstd's `valid_utf8` and
/// `decode_utf8` define them.
#[verifier::external_body]
pub(crate) fn string_from_utf8(bytes: Vec<u8>) -> (s: Option<String>)
    ensures
        s is Some <==> valid_utf8(bytes@),
        s matches Some(t) ==> t@ == decode_utf8(bytes@),
{
    String::from_utf8(bytes).ok()
}

} // verus!

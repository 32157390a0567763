//! Decimal ASCII numerals: how the wire format writes and reads integers.

use vstd::prelude::*;
use vstd::string::StringExecFns;

verus! {

/// The digit `0`.
pub const ZERO: u8 = 48;

/// The digit `9`.
pub const NINE: u8 = 57;

/// The plus sign.
pub const PLUS: u8 = 43;

/// The minus sign.
pub const MINUS: u8 = 45;

/// Whether `b` is one of the ASCII digits `0` to `9`.
pub open spec fn is_digit(b: u8) -> bool {
    ZERO <= b <= NINE
}

/// Whether every byte of `s` is an ASCII digit.
pub open spec fn all_digits(s: Seq<u8>) -> bool {
    forall|i: int| 0 <= i < s.len() ==> is_digit(#[trigger] s[i])
}

/// The digits of `n` in base ten, most significant first, without leading zeros.
pub open spec fn decimal(n: nat) -> Seq<u8>
    decreases n,
{
    if n < 10 {
        seq![(ZERO + n) as u8]
    } else {
        decimal(n / 10).push((ZERO + n % 10) as u8)
    }
}

/// The text of `i` in base ten: a minus sign before the digits of a negative number.
pub open spec fn signed_decimal(i: int) -> Seq<u8> {
    if i < 0 {
        seq![MINUS] + decimal((-i) as nat)
    } else {
        decimal(i as nat)
    }
}

/// The number that a string of digits denotes in base ten; zero for the empty string.
pub open spec fn digits_value(s: Seq<u8>) -> nat
    decreases s.len(),
{
    if s.len() == 0 {
        0
    } else {
        digits_value(s.drop_last()) * 10 + (s.last() - ZERO) as nat
    }
}

/// How many ASCII digits stand at the start of `s`.
pub open spec fn digit_run(s: Seq<u8>) -> nat
    decreases s.len(),
{
    if s.len() > 0 && is_digit(s[0]) {
        1 + digit_run(s.drop_first())
    } else {
        0
    }
}

/// Whether `text` starts with a sign.
pub open spec fn has_sign(text: Seq<u8>) -> bool {
    text.len() > 0 && (text[0] == PLUS || text[0] == MINUS)
}

/// The number that stands at the start of `text`: an optional sign, then the
/// longest run of digits, whatever follows. A sign alone denotes zero. `None`
/// when `text` starts with neither a sign nor a digit.
pub open spec fn numeral(text: Seq<u8>) -> Option<int> {
    let body = if has_sign(text) {
        text.drop_first()
    } else {
        text
    };
    let run = digit_run(body);
    let magnitude = digits_value(body.take(run as int)) as int;
    if !has_sign(text) && run == 0 {
        None
    } else if has_sign(text) && text[0] == MINUS {
        Some(-magnitude)
    } else {
        Some(magnitude)
    }
}

/// The numeral at the start of `text` as a `u64`, where there is one and it fits.
pub open spec fn unsigned_numeral(text: Seq<u8>) -> Option<u64> {
    match numeral(text) {
        Some(v) => if 0 <= v <= u64::MAX {
            Some(v as u64)
        } else {
            None
        },
        None => None,
    }
}

/// The numeral at the start of `text` as an `i64`, where there is one and it fits.
pub open spec fn integer_numeral(text: Seq<u8>) -> Option<i64> {
    match numeral(text) {
        Some(v) => if i64::MIN <= v <= i64::MAX {
            Some(v as i64)
        } else {
            None
        },
        None => None,
    }
}

/// Reads a `u64` from the start of `text` with `atoi::atoi::<u64>`.
///
/// Trusted: the crate accepts one leading `+` or `-`, then consumes the longest
/// run of ASCII digits and ignores what follows; it answers `None` when it
/// consumed nothing (neither sign nor digit) or when the number leaves the
/// range of the type, so `-0` is zero and `-1` is `None`.
#[verifier::external_body]
pub(crate) fn atoi_unsigned(text: &[u8]) -> (r: Option<u64>)
    ensures
        r == unsigned_numeral(text@),
{
    atoi::atoi::<u64>(text)
}

/// Reads an `i64` from the start of `text` with `atoi::atoi::<i64>`.
///
/// Trusted: as for the unsigned reader, with the range of `i64`.
#[verifier::external_body]
pub(crate) fn atoi_integer(text: &[u8]) -> (r: Option<i64>)
    ensures
        r == integer_numeral(text@),
{
    atoi::atoi::<i64>(text)
}

/// Appends the decimal digits of `n` to `dst`.
pub fn push_decimal(dst: &mut Vec<u8>, n: u64)
    ensures
        final(dst)@ == old(dst)@ + decimal(n as nat),
    decreases n,
{
    if n >= 10 {
        push_decimal(dst, n / 10);
    }
    let digit: u8 = (n % 10) as u8;
    dst.push(ZERO + digit);
    assert(final(dst)@ =~= old(dst)@ + decimal(n as nat));
}

/// The decimal digits of `n` as characters.
pub open spec fn decimal_text(n: nat) -> Seq<char> {
    Seq::new(decimal(n).len(), |i: int| decimal(n)[i] as char)
}

/// The one-character text of a digit.
fn digit_text(digit: u8) -> (r: &'static str)
    requires
        digit < 10,
    ensures
        r@ == seq![(ZERO + digit) as u8 as char],
{
    proof {
        reveal_strlit("0");
        reveal_strlit("1");
        reveal_strlit("2");
        reveal_strlit("3");
        reveal_strlit("4");
        reveal_strlit("5");
        reveal_strlit("6");
        reveal_strlit("7");
        reveal_strlit("8");
        reveal_strlit("9");
    }
    let r = if digit == 0 {
        "0"
    } else if digit == 1 {
        "1"
    } else if digit == 2 {
        "2"
    } else if digit == 3 {
        "3"
    } else if digit == 4 {
        "4"
    } else if digit == 5 {
        "5"
    } else if digit == 6 {
        "6"
    } else if digit == 7 {
        "7"
    } else if digit == 8 {
        "8"
    } else {
        "9"
    };
    assert(r@ =~= seq![(ZERO + digit) as u8 as char]);
    r
}

/// Appends the decimal digits of `n` to the text `dst`.
pub fn push_decimal_text(dst: &mut String, n: u64)
    ensures
        final(dst)@ == old(dst)@ + decimal_text(n as nat),
    decreases n,
{
    if n >= 10 {
        push_decimal_text(dst, n / 10);
    }
    let digit: u8 = (n % 10) as u8;
    dst.append(digit_text(digit));
    assert(final(dst)@ =~= old(dst)@ + decimal_text(n as nat));
}

/// Appends the decimal text of `i` to `dst`, with a minus sign where `i` is negative.
pub fn push_signed_decimal(dst: &mut Vec<u8>, i: i64)
    ensures
        final(dst)@ == old(dst)@ + signed_decimal(i as int),
{
    if i < 0 {
        dst.push(MINUS);
        let magnitude: u64 = if i == i64::MIN {
            9223372036854775808u64
        } else {
            (-i) as u64
        };
        push_decimal(dst, magnitude);
        assert(final(dst)@ =~= old(dst)@ + signed_decimal(i as int));
    } else {
        push_decimal(dst, i as u64);
    }
}

/// The decimal text of a number is made of digits, at least one.
pub proof fn lemma_decimal_digits(n: nat)
    ensures
        decimal(n).len() >= 1,
        all_digits(decimal(n)),
    decreases n,
{
    if n >= 10 {
        lemma_decimal_digits(n / 10);
    }
}

/// Reading the decimal text of a number gives the number back.
pub proof fn lemma_decimal_value(n: nat)
    ensures
        digits_value(decimal(n)) == n,
    decreases n,
{
    let d = decimal(n);
    if n < 10 {
        assert(d.drop_last() =~= Seq::<u8>::empty());
        assert(digits_value(d.drop_last()) == 0);
        assert(d.last() == (ZERO + n) as u8);
    } else {
        lemma_decimal_value(n / 10);
        assert(d.drop_last() =~= decimal(n / 10));
        assert(d.last() == (ZERO + n % 10) as u8);
    }
}

/// A string of digits is one run of digits.
pub proof fn lemma_digit_run_all(s: Seq<u8>)
    requires
        all_digits(s),
    ensures
        digit_run(s) == s.len(),
    decreases s.len(),
{
    if s.len() > 0 {
        lemma_digit_run_all(s.drop_first());
    }
}

/// The numeral read from the decimal text of `n` is `n`.
pub proof fn lemma_numeral_decimal(n: nat)
    ensures
        numeral(decimal(n)) == Some(n as int),
{
    let d = decimal(n);
    lemma_decimal_digits(n);
    lemma_decimal_value(n);
    lemma_digit_run_all(d);
    assert(is_digit(d[0]));
    assert(d.take(d.len() as int) =~= d);
}

/// The numeral read from the decimal text of `i` is `i`.
pub proof fn lemma_numeral_signed_decimal(i: int)
    ensures
        numeral(signed_decimal(i)) == Some(i),
{
    if i < 0 {
        let d = decimal((-i) as nat);
        let t = signed_decimal(i);
        lemma_decimal_digits((-i) as nat);
        lemma_decimal_value((-i) as nat);
        lemma_digit_run_all(d);
        assert(t.drop_first() =~= d);
        assert(d.take(d.len() as int) =~= d);
    } else {
        lemma_numeral_decimal(i as nat);
    }
}

} // verus!

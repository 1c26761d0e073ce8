//! Decimal numerals: reading unsigned integers and writing integers and
//! binary fractions.

use crate::text::chars_of;
use vstd::prelude::*;

verus! {

/// Whether `c` is one of `0` to `9`.
pub open spec fn is_digit(c: char) -> bool {
    0x30 <= c as u32 <= 0x39
}

/// The number that the digit `c` stands for; 0 for any other character.
pub open spec fn digit_value(c: char) -> nat {
    if is_digit(c) {
        (c as u32 - 0x30) as nat
    } else {
        0
    }
}

/// The digit that stands for `d`, which is below ten.
pub open spec fn digit_char(d: nat) -> char {
    (0x30 + d) as char
}

/// The number that a string of digits denotes in base ten.
pub open spec fn decimal_value(s: Seq<char>) -> nat
    decreases s.len(),
{
    if s.len() == 0 {
        0
    } else {
        decimal_value(s.drop_last()) * 10 + digit_value(s.last())
    }
}

/// The shortest base-ten numeral of `n`.
pub open spec fn decimal_text(n: nat) -> Seq<char>
    decreases n,
{
    if n < 10 {
        seq![digit_char(n)]
    } else {
        decimal_text(n / 10).push(digit_char(n % 10))
    }
}

/// Whether every character of `s` is a digit.
pub open spec fn all_digits(s: Seq<char>) -> bool {
    forall|i: int| 0 <= i < s.len() ==> is_digit(#[trigger] s[i])
}

/// `s` without one leading plus sign.
pub open spec fn unsigned_part(s: Seq<char>) -> Seq<char> {
    if s.len() > 0 && s[0] == '+' {
        s.drop_first()
    } else {
        s
    }
}

/// Whether `s` is a numeral that fits in 64 bits: an optional plus sign, then
/// one or more digits.
pub open spec fn is_u64_text(s: Seq<char>) -> bool {
    let digits = unsigned_part(s);
    &&& digits.len() > 0
    &&& all_digits(digits)
    &&& decimal_value(digits) <= u64::MAX
}

/// A numeral denotes at least as much as any of its prefixes.
pub proof fn lemma_prefix_value(s: Seq<char>, k: int)
    requires
        0 <= k <= s.len(),
    ensures
        decimal_value(s.take(k)) <= decimal_value(s),
    decreases s.len(),
{
    if k == s.len() {
        assert(s.take(k) =~= s);
    } else {
        assert(s.drop_last().take(k) =~= s.take(k));
        lemma_prefix_value(s.drop_last(), k);
        assert(decimal_value(s.drop_last()) <= decimal_value(s.drop_last()) * 10)
            by (nonlinear_arith);
    }
}

/// Reads an unsigned 64-bit integer, as `str::parse::<u64>` does: `None` for
/// an empty string, a character that is no digit, or a value that does not
/// fit.
pub fn parse_u64(s: &str) -> (r: Option<u64>)
    ensures
        r is Some <==> is_u64_text(s@),
        r matches Some(v) ==> v == decimal_value(unsigned_part(s@)),
{
    let chars = chars_of(s);
    let n = chars.len();
    let start: usize = if n > 0 && chars[0] == '+' {
        1
    } else {
        0
    };
    let ghost digits = unsigned_part(chars@);
    assert(digits =~= chars@.subrange(start as int, n as int));
    if start == n {
        return None;
    }
    let mut acc: u64 = 0;
    let mut i: usize = start;
    assert(chars@.subrange(start as int, start as int) =~= Seq::<char>::empty());
    while i < n
        invariant
            n == chars.len(),
            start <= i <= n,
            digits == unsigned_part(s@),
            digits == chars@.subrange(start as int, n as int),
            forall|k: int| start <= k < i ==> is_digit(chars@[k]),
            acc == decimal_value(chars@.subrange(start as int, i as int)),
        decreases n - i,
    {
        let c = chars[i];
        let code: u32 = c as u32;
        if code < 0x30 || code > 0x39 {
            assert(!is_digit(digits[i - start]));
            return None;
        }
        let d: u64 = (code - 0x30) as u64;
        let ghost read = chars@.subrange(start as int, i + 1);
        assert(read.drop_last() =~= chars@.subrange(start as int, i as int));
        assert(decimal_value(read) == acc * 10 + d);
        assert(digits.take(i + 1 - start) =~= read);
        proof {
            lemma_prefix_value(digits, i + 1 - start);
        }
        match acc.checked_mul(10) {
            None => {
                return None;
            },
            Some(shifted) => match shifted.checked_add(d) {
                None => {
                    return None;
                },
                Some(sum) => {
                    acc = sum;
                },
            },
        }
        i += 1;
    }
    assert(all_digits(digits)) by {
        assert forall|k: int| 0 <= k < digits.len() implies is_digit(#[trigger] digits[k]) by {
            assert(digits[k] == chars@[start + k]);
        }
    }
    Some(acc)
}

/// The character of a digit below ten.
fn digit_of(d: u8) -> (c: char)
    requires
        d < 10,
    ensures
        c == digit_char(d as nat),
{
    (0x30u8 + d) as char
}

/// Appends the base-ten numeral of `n` to `out`.
pub fn push_decimal(out: &mut String, n: u128)
    ensures
        final(out)@ == old(out)@ + decimal_text(n as nat),
    decreases n,
{
    if n >= 10 {
        push_decimal(out, n / 10);
    }
    out.push(digit_of((n % 10) as u8));
    proof {
        let before = old(out)@;
        if n >= 10 {
            assert(before + decimal_text((n / 10) as nat).push(digit_char((n % 10) as nat)) =~= (
            before + decimal_text((n / 10) as nat)).push(digit_char((n % 10) as nat)));
        } else {
            assert(before + seq![digit_char(n as nat)] =~= before.push(digit_char(n as nat)));
        }
    }
}

/// The base-ten numeral of `n`.
pub fn format_decimal(n: u128) -> (r: String)
    ensures
        r@ == decimal_text(n as nat),
{
    let mut out = String::new();
    push_decimal(&mut out, n);
    assert(Seq::<char>::empty() + decimal_text(n as nat) =~= decimal_text(n as nat));
    out
}


/// Ten to the power of `n`.
pub open spec fn pow10(n: nat) -> nat
    decreases n,
{
    if n == 0 {
        1
    } else {
        10 * pow10((n - 1) as nat)
    }
}

/// A digit written and read again is the same digit.
pub proof fn lemma_digit_reads_back(d: nat)
    requires
        d < 10,
    ensures
        is_digit(digit_char(d)),
        digit_value(digit_char(d)) == d,
{
}

/// What is written is read back: the numeral of `n` holds digits only, at
/// least one, and denotes `n`.
pub proof fn decimal_text_reads_back(n: nat)
    ensures
        decimal_text(n).len() > 0,
        all_digits(decimal_text(n)),
        decimal_value(decimal_text(n)) == n,
    decreases n,
{
    if n < 10 {
        lemma_digit_reads_back(n);
        assert(seq![digit_char(n)].drop_last() =~= Seq::<char>::empty());
        assert(decimal_value(Seq::<char>::empty()) == 0);
    } else {
        decimal_text_reads_back(n / 10);
        lemma_digit_reads_back(n % 10);
        let text = decimal_text(n);
        assert(text.drop_last() =~= decimal_text(n / 10));
        assert forall|i: int| 0 <= i < text.len() implies is_digit(#[trigger] text[i]) by {
            if i < text.len() - 1 {
                assert(text[i] == decimal_text(n / 10)[i]);
            }
        }
    }
}

/// A numeral with one more digit in front denotes that digit's multiple of
/// the power of ten more.
pub proof fn lemma_leading_digit(c: char, rest: Seq<char>)
    ensures
        decimal_value(seq![c] + rest) == digit_value(c) * pow10(rest.len()) + decimal_value(rest),
    decreases rest.len(),
{
    let whole = seq![c] + rest;
    if rest.len() == 0 {
        assert(whole.drop_last() =~= Seq::<char>::empty());
        assert(whole.last() == c);
        assert(decimal_value(Seq::<char>::empty()) == 0);
        assert(decimal_value(rest) == 0);
        assert(pow10(0) == 1);
    } else {
        assert(whole.drop_last() =~= seq![c] + rest.drop_last());
        assert(whole.last() == rest.last());
        lemma_leading_digit(c, rest.drop_last());
        assert(pow10(rest.len()) == 10 * pow10(rest.drop_last().len()));
        assert((digit_value(c) * pow10(rest.drop_last().len()) + decimal_value(rest.drop_last()))
            * 10 + digit_value(rest.last()) == digit_value(c) * (10 * pow10(
            rest.drop_last().len(),
        )) + (decimal_value(rest.drop_last()) * 10 + digit_value(rest.last())))
            by (nonlinear_arith);
    }
}

} // verus!

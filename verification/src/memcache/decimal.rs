//! Unsigned decimal text, as the cache stores counters: an optional `+`
//! followed by one or more ASCII digits.

use vstd::prelude::*;

verus! {

/// ASCII code of `0`.
pub const ASCII_ZERO: u8 = 0x30;

/// ASCII code of `9`.
pub const ASCII_NINE: u8 = 0x39;

/// ASCII code of `+`.
pub const ASCII_PLUS: u8 = 0x2b;

/// Whether `b` is one of the ASCII digits `0` to `9`.
pub open spec fn is_digit(b: u8) -> bool {
    ASCII_ZERO <= b <= ASCII_NINE
}

/// The number a digit stands for; 0 for any other byte.
pub open spec fn digit_value(b: u8) -> nat {
    if is_digit(b) {
        (b - ASCII_ZERO) as nat
    } else {
        0
    }
}

/// Whether every byte of `s` is an ASCII digit.
pub open spec fn all_digits(s: Seq<u8>) -> bool {
    forall|i: int| 0 <= i < s.len() ==> is_digit(#[trigger] s[i])
}

/// The number that a string of digits denotes in base ten; the empty string
/// denotes 0.
pub open spec fn digits_value(s: Seq<u8>) -> nat
    decreases s.len(),
{
    if s.len() == 0 {
        0
    } else {
        10 * digits_value(s.drop_last()) + digit_value(s.last())
    }
}

/// `s` without its leading `+`, if it has one.
pub open spec fn without_sign(s: Seq<u8>) -> Seq<u8> {
    if s.len() > 0 && s[0] == ASCII_PLUS {
        s.subrange(1, s.len() as int)
    } else {
        s
    }
}

/// The number that the text `s` denotes, if `s` is an optional `+` followed
/// by at least one digit and the number is at most `max`.
pub open spec fn decimal_value(s: Seq<u8>, max: u64) -> Option<u64> {
    let digits = without_sign(s);
    if digits.len() > 0 && all_digits(digits) && digits_value(digits) <= max {
        Some(digits_value(digits) as u64)
    } else {
        None
    }
}

/// The shortest decimal text of `n`: no sign, no leading zero except for 0
/// itself.
pub open spec fn decimal_text(n: nat) -> Seq<u8>
    decreases n,
{
    if n < 10 {
        seq![(ASCII_ZERO + n) as u8]
    } else {
        decimal_text(n / 10).push((ASCII_ZERO + n % 10) as u8)
    }
}

/// A string of digits denotes at least what any of its prefixes denotes.
pub proof fn lemma_digits_value_prefix(s: Seq<u8>, k: int)
    requires
        0 <= k <= s.len(),
    ensures
        digits_value(s.subrange(0, k)) <= digits_value(s),
    decreases s.len(),
{
    if k == s.len() {
        assert(s.subrange(0, k) =~= s);
    } else {
        lemma_digits_value_prefix(s.drop_last(), k);
        assert(s.drop_last().subrange(0, k) =~= s.subrange(0, k));
    }
}

/// The text of a number consists of digits, does not start with a sign and
/// denotes that number.
pub proof fn lemma_decimal_text_digits(n: nat)
    ensures
        decimal_text(n).len() > 0,
        all_digits(decimal_text(n)),
        digits_value(decimal_text(n)) == n,
        without_sign(decimal_text(n)) == decimal_text(n),
    decreases n,
{
    if n < 10 {
        let s = decimal_text(n);
        assert(s.drop_last() =~= Seq::<u8>::empty());
        assert(digits_value(s.drop_last()) == 0);
    } else {
        lemma_decimal_text_digits(n / 10);
        let s = decimal_text(n);
        let p = decimal_text(n / 10);
        assert(s.drop_last() =~= p);
        assert forall|i: int| 0 <= i < s.len() implies is_digit(#[trigger] s[i]) by {
            if i < p.len() {
                assert(s[i] == p[i]);
            }
        }
    }
}

/// Reading back the text of a number gives that number, under any limit the
/// number respects.
pub proof fn lemma_decimal_round_trip(n: u64, max: u64)
    requires
        n <= max,
    ensures
        decimal_value(decimal_text(n as nat), max) == Some(n),
{
    lemma_decimal_text_digits(n as nat);
}

/// Reads an unsigned decimal number of at most `max` from `bytes`.
pub fn parse_decimal(bytes: &[u8], max: u64) -> (number: Option<u64>)
    ensures
        number == decimal_value(bytes@, max),
{
    let n = bytes.len();
    let start: usize = if n > 0 && bytes[0] == ASCII_PLUS {
        1
    } else {
        0
    };
    let ghost digits = without_sign(bytes@);
    assert(digits =~= bytes@.subrange(start as int, n as int));
    if start == n {
        return None;
    }
    let mut i: usize = start;
    let mut acc: u64 = 0;
    assert(digits.subrange(0, 0) =~= Seq::<u8>::empty());
    while i < n
        invariant
            start <= i <= n,
            n == bytes@.len(),
            digits == bytes@.subrange(start as int, n as int),
            digits == without_sign(bytes@),
            all_digits(digits.subrange(0, i - start)),
            acc == digits_value(digits.subrange(0, i - start)),
            acc <= max,
        decreases n - i,
    {
        let b = bytes[i];
        let ghost k = i - start;
        if b < ASCII_ZERO || b > ASCII_NINE {
            assert(!is_digit(digits[k]));
            return None;
        }
        let d: u64 = (b - ASCII_ZERO) as u64;
        proof {
            let next = digits.subrange(0, k + 1);
            assert(next.drop_last() =~= digits.subrange(0, k));
            assert forall|j: int| 0 <= j < next.len() implies is_digit(#[trigger] next[j]) by {
                if j < k {
                    assert(next[j] == digits.subrange(0, k)[j]);
                }
            }
        }
        if acc > max / 10 || (acc == max / 10 && d > max % 10) {
            proof {
                lemma_digits_value_prefix(digits, k + 1);
            }
            return None;
        }
        acc = acc * 10 + d;
        i = i + 1;
    }
    assert(digits.subrange(0, n - start) =~= digits);
    Some(acc)
}

/// Writes `n` as decimal text.
pub fn format_decimal(n: u64) -> (text: Vec<u8>)
    ensures
        text@ == decimal_text(n as nat),
{
    let mut reversed: Vec<u8> = Vec::new();
    let mut rest: u64 = n;
    loop
        invariant_except_break
            decimal_text(n as nat) =~= decimal_text(rest as nat) + reversed@.reverse(),
        ensures
            reversed@.len() > 0,
            decimal_text(n as nat) =~= reversed@.reverse(),
        decreases rest,
    {
        let digit: u8 = ASCII_ZERO + (rest % 10) as u8;
        let ghost before = reversed@;
        reversed.push(digit);
        assert(reversed@.reverse() =~= seq![digit] + before.reverse());
        if rest < 10 {
            assert(decimal_text(rest as nat) =~= seq![digit]);
            break;
        }
        assert(decimal_text(rest as nat) =~= decimal_text((rest / 10) as nat) + seq![digit]);
        rest = rest / 10;
    }
    let len = reversed.len();
    let mut text: Vec<u8> = Vec::with_capacity(len);
    let mut i: usize = len;
    while i > 0
        invariant
            i <= len,
            len == reversed@.len(),
            text@ =~= reversed@.reverse().subrange(0, len - i),
        decreases i,
    {
        i = i - 1;
        text.push(reversed[i]);
    }
    assert(reversed@.reverse().subrange(0, len as int) =~= reversed@.reverse());
    text
}

} // verus!

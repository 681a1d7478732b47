//! Integers as decimal text, and back.
//!
//! The stored form of every numeric setting: an optional sign and decimal
//! digits, nothing else.

use vstd::prelude::*;
use vstd::string::StringExecFns;

verus! {

/// The character of the decimal digit `d`.
pub open spec fn digit_char(d: nat) -> char {
    if d == 0 {
        '0'
    } else if d == 1 {
        '1'
    } else if d == 2 {
        '2'
    } else if d == 3 {
        '3'
    } else if d == 4 {
        '4'
    } else if d == 5 {
        '5'
    } else if d == 6 {
        '6'
    } else if d == 7 {
        '7'
    } else if d == 8 {
        '8'
    } else {
        '9'
    }
}

/// The decimal digit that `c` stands for, if it is one.
pub open spec fn digit_of(c: char) -> Option<nat> {
    if c == '0' {
        Some(0)
    } else if c == '1' {
        Some(1)
    } else if c == '2' {
        Some(2)
    } else if c == '3' {
        Some(3)
    } else if c == '4' {
        Some(4)
    } else if c == '5' {
        Some(5)
    } else if c == '6' {
        Some(6)
    } else if c == '7' {
        Some(7)
    } else if c == '8' {
        Some(8)
    } else if c == '9' {
        Some(9)
    } else {
        None
    }
}

/// The decimal digits of `n`, without leading zeros.
pub open spec fn decimal_text(n: nat) -> Seq<char>
    decreases n,
{
    if n < 10 {
        seq![digit_char(n)]
    } else {
        decimal_text(n / 10).push(digit_char(n % 10))
    }
}

/// The decimal text of an integer: a minus sign before the digits of a
/// negative one.
pub open spec fn signed_text(n: int) -> Seq<char> {
    if n < 0 {
        seq!['-'] + decimal_text((-n) as nat)
    } else {
        decimal_text(n as nat)
    }
}

/// Whether every character of `s` is a decimal digit.
pub open spec fn all_digits(s: Seq<char>) -> bool {
    forall|i: int| 0 <= i < s.len() ==> (#[trigger] digit_of(s[i])) is Some
}

/// The number that a run of decimal digits writes.
pub open spec fn digits_value(s: Seq<char>) -> nat
    decreases s.len(),
{
    if s.len() == 0 {
        0
    } else {
        digits_value(s.drop_last()) * 10 + match digit_of(s.last()) {
            Some(d) => d,
            None => 0,
        }
    }
}

/// The integer that `s` writes: one or more decimal digits, after at most one
/// sign, `+` or `-`. Any other text writes none.
pub open spec fn signed_value(s: Seq<char>) -> Option<int> {
    if s.len() > 0 && (s[0] == '-' || s[0] == '+') {
        let digits = s.subrange(1, s.len() as int);
        if digits.len() > 0 && all_digits(digits) {
            if s[0] == '-' {
                Some(-(digits_value(digits) as int))
            } else {
                Some(digits_value(digits) as int)
            }
        } else {
            None
        }
    } else if s.len() > 0 && all_digits(s) {
        Some(digits_value(s) as int)
    } else {
        None
    }
}

/// The text of one decimal digit.
fn digit_str(d: u64) -> (text: &'static str)
    requires
        d < 10,
    ensures
        text@ == seq![digit_char(d as nat)],
{
    proof {
        reveal_strlit("0");
        reveal_strlit("1");
        reveal_strlit("2");
        reveal_strlit("3");
        reveal_strlit("4");
        reveal_strlit("5");
        reveal_strlit("6");
        reveal_strlit("7");
        reveal_strlit("8");
        reveal_strlit("9");
    }
    let text = if d == 0 {
        "0"
    } else if d == 1 {
        "1"
    } else if d == 2 {
        "2"
    } else if d == 3 {
        "3"
    } else if d == 4 {
        "4"
    } else if d == 5 {
        "5"
    } else if d == 6 {
        "6"
    } else if d == 7 {
        "7"
    } else if d == 8 {
        "8"
    } else {
        "9"
    };
    assert(text@ =~= seq![digit_char(d as nat)]);
    text
}

/// Appends the decimal digits of `n` to `out`.
fn push_decimal(out: &mut String, n: u64)
    ensures
        final(out)@ == old(out)@ + decimal_text(n as nat),
    decreases n,
{
    if n >= 10 {
        push_decimal(out, n / 10);
    }
    out.append(digit_str(n % 10));
    assert(out@ =~= old(out)@ + decimal_text(n as nat));
}

/// The decimal text of `n`.
pub fn format_u64(n: u64) -> (text: String)
    ensures
        text@ == decimal_text(n as nat),
{
    let mut text = String::new();
    push_decimal(&mut text, n);
    assert(text@ =~= decimal_text(n as nat));
    text
}

/// The decimal text of `n`, with a minus sign where it is negative.
pub fn format_i64(n: i64) -> (text: String)
    ensures
        text@ == signed_text(n as int),
{
    let mut text = String::new();
    if n < 0 {
        proof {
            reveal_strlit("-");
        }
        text.append("-");
        let magnitude: u64 = if n == i64::MIN {
            9223372036854775808u64
        } else {
            (-n) as u64
        };
        push_decimal(&mut text, magnitude);
        assert(text@ =~= signed_text(n as int));
    } else {
        push_decimal(&mut text, n as u64);
        assert(text@ =~= signed_text(n as int));
    }
    text
}

/// The integer that `s` writes, where it writes one that an `i64` holds.
pub open spec fn parsed_i64(s: Seq<char>) -> Option<i64> {
    match signed_value(s) {
        Some(v) => if i64::MIN <= v <= i64::MAX {
            Some(v as i64)
        } else {
            None
        },
        None => None,
    }
}

/// The decimal digit that `c` stands for, if it is one.
fn digit_of_char(c: char) -> (digit: Option<u64>)
    ensures
        match digit {
            Some(d) => digit_of(c) == Some(d as nat),
            None => digit_of(c) is None,
        },
{
    if c == '0' {
        Some(0)
    } else if c == '1' {
        Some(1)
    } else if c == '2' {
        Some(2)
    } else if c == '3' {
        Some(3)
    } else if c == '4' {
        Some(4)
    } else if c == '5' {
        Some(5)
    } else if c == '6' {
        Some(6)
    } else if c == '7' {
        Some(7)
    } else if c == '8' {
        Some(8)
    } else if c == '9' {
        Some(9)
    } else {
        None
    }
}

/// The number that `digits` writes, where they are one or more decimal
/// digits and the number is at most `limit`.
pub open spec fn bounded_digits(digits: Seq<char>, limit: u64) -> Option<u64> {
    if digits.len() > 0 && all_digits(digits) && digits_value(digits) <= limit {
        Some(digits_value(digits) as u64)
    } else {
        None
    }
}

/// Reads the number that `text` writes from place `start` on.
fn parse_digits(text: &str, start: usize, limit: u64) -> (value: Option<u64>)
    requires
        start <= text@.len(),
    ensures
        value == bounded_digits(text@.subrange(start as int, text@.len() as int), limit),
{
    let n = text.unicode_len();
    if start == n {
        return None;
    }
    let ghost digits = text@.subrange(start as int, n as int);
    let mut value: u64 = 0;
    let mut over = false;
    let mut i = start;
    assert(digits.take(0) =~= Seq::<char>::empty());
    while i < n
        invariant
            start <= i <= n,
            n == text@.len(),
            digits == text@.subrange(start as int, n as int),
            all_digits(digits.take(i - start)),
            !over ==> value == digits_value(digits.take(i - start)) && value <= limit,
            over ==> digits_value(digits.take(i - start)) > limit,
        decreases n - i,
    {
        let c = text.get_char(i);
        let ghost k = i - start;
        assert(digits[k] == c);
        assert(digits.take(k + 1).drop_last() =~= digits.take(k));
        assert(digits.take(k + 1).last() == c);
        match digit_of_char(c) {
            None => {
                assert(!all_digits(digits));
                return None;
            },
            Some(d) => {
                assert(all_digits(digits.take(k + 1))) by {
                    assert forall|j: int| 0 <= j < k + 1 implies (#[trigger] digit_of(
                        digits.take(k + 1)[j],
                    )) is Some by {
                        if j < k {
                            assert(digits.take(k + 1)[j] == digits.take(k)[j]);
                        }
                    }
                }
                if !over {
                    let wide: u128 = value as u128 * 10 + d as u128;
                    if wide > limit as u128 {
                        over = true;
                    } else {
                        value = wide as u64;
                    }
                }
            },
        }
        i += 1;
    }
    assert(digits.take(n - start) =~= digits);
    if over {
        None
    } else {
        Some(value)
    }
}

/// Reads an integer from its decimal text. Text that writes no integer, or
/// one outside the range of `i64`, gives `None`.
pub fn parse_i64(text: &str) -> (value: Option<i64>)
    ensures
        value == parsed_i64(text@),
{
    if text.unicode_len() == 0 {
        return None;
    }
    let first = text.get_char(0);
    if first == '-' {
        match parse_digits(text, 1, 9223372036854775808) {
            Some(magnitude) => {
                if magnitude == 9223372036854775808 {
                    Some(i64::MIN)
                } else {
                    Some(-(magnitude as i64))
                }
            },
            None => None,
        }
    } else {
        let start: usize = if first == '+' {
            1
        } else {
            0
        };
        assert(start == 0 ==> text@.subrange(0, text@.len() as int) =~= text@);
        match parse_digits(text, start, 9223372036854775807) {
            Some(magnitude) => Some(magnitude as i64),
            None => None,
        }
    }
}

/// The number that `s` writes without a minus sign: one or more decimal
/// digits, after at most one `+`. Any other text writes none.
pub open spec fn unsigned_value(s: Seq<char>) -> Option<nat> {
    let digits = if s.len() > 0 && s[0] == '+' {
        s.subrange(1, s.len() as int)
    } else {
        s
    };
    if digits.len() > 0 && all_digits(digits) {
        Some(digits_value(digits))
    } else {
        None
    }
}

/// The number that `s` writes, where it writes one that a `u64` holds.
pub open spec fn parsed_u64(s: Seq<char>) -> Option<u64> {
    match unsigned_value(s) {
        Some(v) => if v <= u64::MAX {
            Some(v as u64)
        } else {
            None
        },
        None => None,
    }
}

/// Reads a number without a minus sign from its decimal text. Text that
/// writes none, or one outside the range of `u64`, gives `None`.
pub fn parse_u64(text: &str) -> (value: Option<u64>)
    ensures
        value == parsed_u64(text@),
{
    if text.unicode_len() == 0 {
        return None;
    }
    let start: usize = if text.get_char(0) == '+' {
        1
    } else {
        0
    };
    assert(start == 0 ==> text@.subrange(0, text@.len() as int) =~= text@);
    parse_digits(text, start, u64::MAX)
}

/// The decimal text of a number is one or more digits, and writes that number.
pub proof fn lemma_decimal_text_writes(n: nat)
    ensures
        decimal_text(n).len() > 0,
        all_digits(decimal_text(n)),
        digits_value(decimal_text(n)) == n,
    decreases n,
{
    if n < 10 {
        let t = decimal_text(n);
        assert(t.drop_last() =~= Seq::<char>::empty());
        assert(digits_value(t.drop_last()) == 0);
        assert(t.last() == digit_char(n));
    } else {
        lemma_decimal_text_writes(n / 10);
        let head = decimal_text(n / 10);
        let t = decimal_text(n);
        assert(t.drop_last() =~= head);
        assert(t.last() == digit_char(n % 10));
        assert forall|i: int| 0 <= i < t.len() implies (#[trigger] digit_of(t[i])) is Some by {
            if i < head.len() {
                assert(t[i] == head[i]);
            }
        }
    }
}

/// Reading the text that was written for an integer gives that integer back.
pub proof fn lemma_signed_text_round_trip(n: int)
    ensures
        signed_value(signed_text(n)) == Some(n),
{
    if n < 0 {
        let m = (-n) as nat;
        lemma_decimal_text_writes(m);
        let t = signed_text(n);
        assert(t[0] == '-');
        assert(t.subrange(1, t.len() as int) =~= decimal_text(m));
    } else {
        lemma_decimal_text_writes(n as nat);
        let t = signed_text(n);
        assert(digit_of(t[0]) is Some);
    }
}

/// What `format_i64` writes, `parse_i64` reads back unchanged.
pub proof fn lemma_i64_round_trip(n: i64)
    ensures
        parsed_i64(signed_text(n as int)) == Some(n),
{
    lemma_signed_text_round_trip(n as int);
}

/// What `format_u64` writes, `parse_u64` reads back unchanged.
pub proof fn lemma_u64_round_trip(n: u64)
    ensures
        parsed_u64(decimal_text(n as nat)) == Some(n),
{
    lemma_decimal_text_writes(n as nat);
    assert(digit_of(decimal_text(n as nat)[0]) is Some);
}

} // verus!

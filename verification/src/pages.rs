//! The page count of a book as decimal text.
//!
//! A page count travels as text and is kept as a 32-bit integer. The text is
//! an optional sign followed by decimal digits; it stands for a page count
//! when its value fits 32 bits and is not negative.

use crate::chars::chars_of;
use vstd::prelude::*;
use vstd::string::*;

verus! {

/// `c` is one of the ten decimal digits.
pub open spec fn is_digit(c: char) -> bool {
    '0' <= c <= '9'
}

/// The value of the decimal digit `c`.
pub open spec fn digit_value(c: char) -> int {
    c as int - '0' as int
}

/// Every character of `s` is a decimal digit.
pub open spec fn all_digits(s: Seq<char>) -> bool {
    forall|i: int| 0 <= i < s.len() ==> is_digit(#[trigger] s[i])
}

/// The number that the digits `s` write, most significant digit first.
pub open spec fn decimal_value(s: Seq<char>) -> int
    decreases s.len(),
{
    if s.len() == 0 {
        0
    } else {
        decimal_value(s.drop_last()) * 10 + digit_value(s.last())
    }
}

/// `s` without a leading sign.
pub open spec fn unsigned_part(s: Seq<char>) -> Seq<char> {
    if s.len() > 0 && (s[0] == '+' || s[0] == '-') {
        s.skip(1)
    } else {
        s
    }
}

/// The integer that `s` writes: an optional `+` or `-` and at least one
/// digit, nothing else.
pub open spec fn signed_value(s: Seq<char>) -> Option<int> {
    let digits = unsigned_part(s);
    if digits.len() == 0 || !all_digits(digits) {
        None
    } else if s[0] == '-' {
        Some(-decimal_value(digits))
    } else {
        Some(decimal_value(digits))
    }
}

/// The page count that the text `s` stands for, if it stands for one.
pub open spec fn page_count(s: Seq<char>) -> Option<int> {
    match signed_value(s) {
        Some(v) if 0 <= v <= i32::MAX => Some(v),
        _ => None,
    }
}

/// Digits written after a number never make it smaller.
proof fn lemma_decimal_value_grows(s: Seq<char>, k: int)
    requires
        all_digits(s),
        0 <= k <= s.len(),
    ensures
        0 <= decimal_value(s.take(k)) <= decimal_value(s),
    decreases s.len() - k,
{
    if k == s.len() {
        assert(s.take(k) == s);
        lemma_decimal_value_nonnegative(s);
    } else {
        lemma_decimal_value_grows(s, k + 1);
        assert(s.take(k + 1).drop_last() == s.take(k));
        lemma_decimal_value_nonnegative(s.take(k));
    }
}

proof fn lemma_decimal_value_nonnegative(s: Seq<char>)
    requires
        all_digits(s),
    ensures
        0 <= decimal_value(s),
    decreases s.len(),
{
    if s.len() > 0 {
        lemma_decimal_value_nonnegative(s.drop_last());
    }
}

/// Reads a page count from its text.
pub fn parse_number_pages(text: &str) -> (pages: Option<i32>)
    ensures
        match page_count(text@) {
            Some(count) => pages == Some(count as i32),
            None => pages is None,
        },
{
    let chars = chars_of(text);
    let len: usize = chars.len();
    if len == 0 {
        return None;
    }
    let negative = chars[0] == '-';
    let start: usize = if chars[0] == '+' || chars[0] == '-' { 1 } else { 0 };
    if start == len {
        return None;
    }
    let ghost digits = unsigned_part(text@);
    let mut value: i64 = 0;
    let mut i: usize = start;
    while i < len
        invariant
            start <= i <= len,
            len == chars.len(),
            chars@ == text@,
            digits == unsigned_part(text@),
            digits.len() == len - start,
            forall|k: int| 0 <= k < digits.len() ==> digits[k] == chars@[start + k],
            all_digits(digits.take(i - start)),
            value == decimal_value(digits.take(i - start)),
            0 <= value <= i32::MAX,
        decreases len - i,
    {
        let c = chars[i];
        if !(c >= '0' && c <= '9') {
            assert(!is_digit(digits[i - start]));
            return None;
        }
        let d: i64 = (c as u32 - '0' as u32) as i64;
        let next: i64 = value * 10 + d;
        proof {
            assert(digits.take(i - start + 1).drop_last() == digits.take(i - start));
        }
        if next > 2147483647 {
            proof {
                if all_digits(digits) {
                    lemma_decimal_value_grows(digits, i - start + 1);
                }
            }
            return None;
        }
        value = next;
        i = i + 1;
    }
    assert(digits.take(i - start) == digits);
    if negative && value != 0 {
        None
    } else {
        Some(value as i32)
    }
}

/// The decimal digit that writes `d`.
pub open spec fn digit_char(d: int) -> char {
    ('0' as int + d) as char
}

/// The decimal digits of `n`, without leading zeros.
pub open spec fn natural_text(n: nat) -> Seq<char>
    decreases n,
{
    if n < 10 {
        seq![digit_char(n as int)]
    } else {
        natural_text(n / 10).push(digit_char((n % 10) as int))
    }
}

/// The decimal text of `n`: a `-` before the digits of a negative number.
pub open spec fn number_text(n: int) -> Seq<char> {
    if n < 0 {
        seq!['-'] + natural_text((-n) as nat)
    } else {
        natural_text(n as nat)
    }
}

fn digit_text(d: u32) -> (text: &'static str)
    requires
        d < 10,
    ensures
        text@ == seq![digit_char(d as int)],
{
    proof {
        reveal_strlit("0");
        reveal_strlit("1");
        reveal_strlit("2");
        reveal_strlit("3");
        reveal_strlit("4");
        reveal_strlit("5");
        reveal_strlit("6");
        reveal_strlit("7");
        reveal_strlit("8");
        reveal_strlit("9");
    }
    match d {
        0 => "0",
        1 => "1",
        2 => "2",
        3 => "3",
        4 => "4",
        5 => "5",
        6 => "6",
        7 => "7",
        8 => "8",
        _ => "9",
    }
}

fn natural_to_text(n: u32) -> (text: String)
    ensures
        text@ == natural_text(n as nat),
    decreases n,
{
    if n < 10 {
        digit_text(n).to_owned()
    } else {
        natural_to_text(n / 10).concat(digit_text(n % 10))
    }
}

/// Writes `n` as decimal text.
pub fn number_to_text(n: i32) -> (text: String)
    ensures
        text@ == number_text(n as int),
{
    if n < 0 {
        let magnitude: u32 = (-(n as i64)) as u32;
        let digits = natural_to_text(magnitude);
        proof {
            reveal_strlit("-");
        }
        "-".to_owned().concat(digits.as_str())
    } else {
        natural_to_text(n as u32)
    }
}

proof fn lemma_natural_text_value(n: nat)
    ensures
        natural_text(n).len() > 0,
        all_digits(natural_text(n)),
        decimal_value(natural_text(n)) == n,
    decreases n,
{
    if n < 10 {
        assert(decimal_value(natural_text(n).drop_last()) == 0);
    } else {
        lemma_natural_text_value(n / 10);
        assert(natural_text(n).drop_last() == natural_text(n / 10));
    }
}

/// Reading the text that was written for a number gives the number back.
pub proof fn lemma_number_text_reads_back(n: int)
    ensures
        signed_value(number_text(n)) == Some(n),
        0 <= n <= i32::MAX ==> page_count(number_text(n)) == Some(n),
{
    if n < 0 {
        lemma_natural_text_value((-n) as nat);
        assert(unsigned_part(number_text(n)) == natural_text((-n) as nat));
    } else {
        lemma_natural_text_value(n as nat);
    }
}

} // verus!

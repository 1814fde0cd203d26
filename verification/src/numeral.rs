//! Decimal numerals: how a position is written and how an entered number is
//! read.

use vstd::prelude::*;
use vstd::string::*;

verus! {

/// Whether `c` is one of the ten decimal digits.
pub open spec fn is_digit(c: char) -> bool {
    0x30 <= c as u32 <= 0x39
}

/// The number that the digit `c` stands for.
pub open spec fn digit_value(c: char) -> nat
    recommends
        is_digit(c),
{
    (c as u32 - 0x30) as nat
}

/// The digit that stands for `d`.
pub open spec fn digit_char(d: nat) -> char
    recommends
        d < 10,
{
    if d == 0 {
        '0'
    } else if d == 1 {
        '1'
    } else if d == 2 {
        '2'
    } else if d == 3 {
        '3'
    } else if d == 4 {
        '4'
    } else if d == 5 {
        '5'
    } else if d == 6 {
        '6'
    } else if d == 7 {
        '7'
    } else if d == 8 {
        '8'
    } else {
        '9'
    }
}

/// `n` written in decimal, without leading zeros.
pub open spec fn decimal_digits(n: nat) -> Seq<char>
    decreases n,
{
    if n < 10 {
        seq![digit_char(n)]
    } else {
        decimal_digits(n / 10).push(digit_char(n % 10))
    }
}

/// Whether `s` is a run of at least one decimal digit.
pub open spec fn is_digits(s: Seq<char>) -> bool {
    &&& s.len() > 0
    &&& forall|i: int| 0 <= i < s.len() ==> is_digit(s[i])
}

/// The number that the digits `s` write, most significant digit first.
pub open spec fn decimal_value(s: Seq<char>) -> nat
    decreases s.len(),
{
    if s.len() == 0 {
        0
    } else {
        decimal_value(s.drop_last()) * 10 + digit_value(s.last())
    }
}

/// The digits of an entered number: the input without the plus sign that may
/// stand at its front.
pub open spec fn numeral_digits(s: Seq<char>) -> Seq<char> {
    if s.len() > 0 && s.first() == '+' {
        s.drop_first()
    } else {
        s
    }
}

/// Whether `s` writes a natural number: decimal digits, at least one, with
/// or without a plus sign before them.
pub open spec fn is_numeral(s: Seq<char>) -> bool {
    is_digits(numeral_digits(s))
}

/// The number that the numeral `s` writes.
pub open spec fn numeral_value(s: Seq<char>) -> nat
    recommends
        is_numeral(s),
{
    decimal_value(numeral_digits(s))
}

/// Writing a number down and reading the digits back gives the number.
pub proof fn lemma_decimal_round_trip(n: nat)
    ensures
        is_digits(decimal_digits(n)),
        decimal_value(decimal_digits(n)) == n,
        is_numeral(decimal_digits(n)),
        numeral_value(decimal_digits(n)) == n,
    decreases n,
{
    let s = decimal_digits(n);
    if n < 10 {
        assert(decimal_value(s.drop_last()) == 0);
    } else {
        lemma_decimal_round_trip(n / 10);
        assert(s.drop_last() =~= decimal_digits(n / 10));
    }
}

/// A number is written without leading zeros: zero is written as one
/// zero, and the first digit of any other number is not zero.
pub proof fn lemma_decimal_digits_lead(n: nat)
    ensures
        decimal_digits(n).len() > 0,
        n == 0 ==> decimal_digits(n) == seq!['0'],
        n > 0 ==> decimal_digits(n).first() != '0',
    decreases n,
{
    if n >= 10 {
        lemma_decimal_digits_lead(n / 10);
        assert(decimal_digits(n).first() == decimal_digits(n / 10).first());
    }
}

/// The value of a run of digits is at least the value of each of its
/// prefixes.
proof fn lemma_prefix_value(s: Seq<char>, k: int)
    requires
        0 <= k <= s.len(),
    ensures
        decimal_value(s.subrange(0, k)) <= decimal_value(s),
    decreases s.len() - k,
{
    if k == s.len() {
        assert(s.subrange(0, k) =~= s);
    } else {
        lemma_prefix_value(s.drop_last(), k);
        assert(s.drop_last().subrange(0, k) =~= s.subrange(0, k));
    }
}

/// The one-character text of the digit `d`.
fn digit_text(d: usize) -> (r: &'static str)
    requires
        d < 10,
    ensures
        r@ == seq![digit_char(d as nat)],
{
    proof {
        reveal_strlit("0");
        reveal_strlit("1");
        reveal_strlit("2");
        reveal_strlit("3");
        reveal_strlit("4");
        reveal_strlit("5");
        reveal_strlit("6");
        reveal_strlit("7");
        reveal_strlit("8");
        reveal_strlit("9");
    }
    if d == 0 {
        "0"
    } else if d == 1 {
        "1"
    } else if d == 2 {
        "2"
    } else if d == 3 {
        "3"
    } else if d == 4 {
        "4"
    } else if d == 5 {
        "5"
    } else if d == 6 {
        "6"
    } else if d == 7 {
        "7"
    } else if d == 8 {
        "8"
    } else {
        "9"
    }
}

/// `n` written in decimal, without leading zeros.
pub fn decimal_string(n: usize) -> (r: String)
    ensures
        r@ == decimal_digits(n as nat),
    decreases n,
{
    if n < 10 {
        String::from_str(digit_text(n))
    } else {
        let mut text = decimal_string(n / 10);
        text.append(digit_text(n % 10));
        assert(seq![digit_char((n % 10) as nat)] =~= Seq::<char>::empty().push(
            digit_char((n % 10) as nat),
        ));
        text
    }
}

/// Reads the natural number that `s` writes. There is none where `s` is no
/// numeral, and none where the number is beyond `usize`.
pub fn parse_number(s: &str) -> (r: Option<usize>)
    ensures
        r == (if is_numeral(s@) && numeral_value(s@) <= usize::MAX {
            Some(numeral_value(s@) as usize)
        } else {
            None
        }),
{
    let n: usize = s.unicode_len();
    let mut i: usize = 0;
    if n > 0 && s.get_char(0) == '+' {
        i = 1;
    }
    let first: usize = i;
    let ghost digits = numeral_digits(s@);
    if i == n {
        return None;
    }
    let mut value: usize = 0;
    while i < n
        invariant
            first <= i <= n,
            first < n,
            n == s@.len(),
            digits == numeral_digits(s@),
            digits == s@.subrange(first as int, n as int),
            forall|k: int| 0 <= k < i - first ==> is_digit(digits[k]),
            value == decimal_value(digits.subrange(0, i - first)),
        decreases n - i,
    {
        let c: char = s.get_char(i);
        let code: u32 = c as u32;
        assert(digits[i - first] == c);
        if code < 0x30 || code > 0x39 {
            return None;
        }
        let d: usize = (code - 0x30) as usize;
        proof {
            let longer = digits.subrange(0, i - first + 1);
            assert(longer.drop_last() =~= digits.subrange(0, i - first));
            lemma_prefix_value(digits, i - first + 1);
        }
        if value > (usize::MAX - d) / 10 {
            return None;
        }
        value = value * 10 + d;
        i += 1;
    }
    assert(digits.subrange(0, n - first) =~= digits);
    Some(value)
}

} // verus!

//! Numbers written out in base ten, the way they are read back.

use vstd::prelude::*;
use vstd::string::*;
use crate::number::{
    decimal_value,
    digit_value,
    is_digit,
    leading_digits,
    parse_decimal,
    NumberError,
};

verus! {

/// The character that stands for the digit `d`.
pub open spec fn digit_char(d: int) -> char {
    (0x30 + d) as char
}

/// The digits of `n` in base ten, without leading zeros.
pub open spec fn decimal_text(n: nat) -> Seq<char>
    decreases n,
{
    if n < 10 {
        seq![digit_char(n as int)]
    } else {
        decimal_text(n / 10).push(digit_char((n % 10) as int))
    }
}

/// The integer `n` in base ten, with a minus sign where it is negative.
pub open spec fn integer_text(n: int) -> Seq<char> {
    if n < 0 {
        seq!['-'] + decimal_text((-n) as nat)
    } else {
        decimal_text(n as nat)
    }
}

/// The text of a number consists of digits only and denotes that number.
pub proof fn decimal_text_denotes(n: nat)
    ensures
        decimal_text(n).len() >= 1,
        forall|i: int| 0 <= i < decimal_text(n).len() ==> is_digit(#[trigger] decimal_text(n)[i]),
        decimal_value(decimal_text(n)) == n,
        leading_digits(decimal_text(n)) == decimal_text(n).len(),
    decreases n,
{
    let text = decimal_text(n);
    if n < 10 {
        assert(text.drop_last().len() == 0);
        assert(decimal_value(text.drop_last()) == 0);
        assert(digit_value(text.last()) == n);
    } else {
        decimal_text_denotes(n / 10);
        assert(text.drop_last() == decimal_text(n / 10));
        assert(digit_value(text.last()) == n % 10);
    }
    all_digits_lead(text);
}

/// A text of digits only starts with as many digits as it is long.
proof fn all_digits_lead(s: Seq<char>)
    requires
        forall|i: int| 0 <= i < s.len() ==> is_digit(#[trigger] s[i]),
    ensures
        leading_digits(s) == s.len(),
    decreases s.len(),
{
    if s.len() > 0 {
        assert(is_digit(s[0]));
        assert forall|i: int| 0 <= i < s.skip(1).len() implies is_digit(#[trigger] s.skip(1)[i]) by {
            assert(s.skip(1)[i] == s[i + 1]);
        }
        all_digits_lead(s.skip(1));
    }
}

/// What is written can be read back: the text of an integer within the
/// range of a type parses as that integer.
pub proof fn written_number_reads_back(n: int, lowest: int, highest: int)
    requires
        lowest <= n <= highest,
        lowest <= 0,
    ensures
        parse_decimal(integer_text(n), lowest, highest) == Ok::<int, NumberError>(n),
{
    let text = integer_text(n);
    if n < 0 {
        let digits = decimal_text((-n) as nat);
        decimal_text_denotes((-n) as nat);
        assert(text[0] == '-');
        assert(text.skip(1) == digits);
        assert(digits.take(digits.len() as int) == digits);
    } else {
        decimal_text_denotes(n as nat);
        assert(is_digit(text[0]));
        assert(text.take(text.len() as int) == text);
    }
}

/// The digit `d` as a text of one character.
fn digit_text(d: u64) -> (r: &'static str)
    requires
        d < 10,
    ensures
        r@ == seq![digit_char(d as int)],
{
    proof {
        reveal_strlit("0");
        reveal_strlit("1");
        reveal_strlit("2");
        reveal_strlit("3");
        reveal_strlit("4");
        reveal_strlit("5");
        reveal_strlit("6");
        reveal_strlit("7");
        reveal_strlit("8");
        reveal_strlit("9");
    }
    let r = if d == 0 {
        "0"
    } else if d == 1 {
        "1"
    } else if d == 2 {
        "2"
    } else if d == 3 {
        "3"
    } else if d == 4 {
        "4"
    } else if d == 5 {
        "5"
    } else if d == 6 {
        "6"
    } else if d == 7 {
        "7"
    } else if d == 8 {
        "8"
    } else {
        "9"
    };
    assert(r@ =~= seq![digit_char(d as int)]);
    r
}

/// Writes `n` in base ten.
pub fn unsigned_text(n: u64) -> (r: String)
    ensures
        r@ == decimal_text(n as nat),
    decreases n,
{
    if n < 10 {
        String::from_str(digit_text(n))
    } else {
        let mut r = unsigned_text(n / 10);
        r.append(digit_text(n % 10));
        assert(r@ =~= decimal_text((n / 10) as nat).push(digit_char((n % 10) as int)));
        r
    }
}

/// Writes `n` in base ten, with a minus sign where it is negative.
pub fn signed_text(n: i64) -> (r: String)
    ensures
        r@ == integer_text(n as int),
{
    if n < 0 {
        let magnitude: u64 = if n == i64::MIN {
            0x8000_0000_0000_0000
        } else {
            (-n) as u64
        };
        let mut r = String::from_str("-");
        proof {
            reveal_strlit("-");
        }
        let digits = unsigned_text(magnitude);
        r.append(digits.as_str());
        assert(r@ =~= seq!['-'] + decimal_text((-n) as nat));
        r
    } else {
        unsigned_text(n as u64)
    }
}

} // verus!

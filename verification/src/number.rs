//! Decimal integers as the firmware writes them: an optional sign followed
//! by ASCII digits, with nothing before, between or after.

use vstd::prelude::*;
use vstd::string::*;

verus! {

/// Why a text is not a number of the wanted type.
#[derive(Clone, Copy, Debug, PartialEq, Eq, Structural)]
pub enum NumberError {
    /// The text is empty.
    Empty,
    /// The text holds a character that is not a digit, or is a lone sign.
    InvalidDigit,
    /// The digits denote a number above the largest value of the type.
    PosOverflow,
    /// The digits denote a number below the smallest value of the type.
    NegOverflow,
}

impl NumberError {
    /// What went wrong, in words.
    pub open spec fn text(self) -> Seq<char> {
        match self {
            NumberError::Empty => "cannot parse integer from empty string"@,
            NumberError::InvalidDigit => "invalid digit found in string"@,
            NumberError::PosOverflow => "number too large to fit in target type"@,
            NumberError::NegOverflow => "number too small to fit in target type"@,
        }
    }

    /// What went wrong, in words.
    pub fn message(self) -> (r: &'static str)
        ensures
            r@ == self.text(),
    {
        match self {
            NumberError::Empty => "cannot parse integer from empty string",
            NumberError::InvalidDigit => "invalid digit found in string",
            NumberError::PosOverflow => "number too large to fit in target type",
            NumberError::NegOverflow => "number too small to fit in target type",
        }
    }
}

/// Whether `c` is one of the ASCII digits `0` to `9`.
pub open spec fn is_digit(c: char) -> bool {
    0x30 <= c as u32 <= 0x39
}

/// The number that the digit `c` stands for.
pub open spec fn digit_value(c: char) -> int {
    c as u32 - 0x30
}

/// The number that a sequence of digits denotes in base ten; the empty
/// sequence denotes zero.
pub open spec fn decimal_value(digits: Seq<char>) -> int
    decreases digits.len(),
{
    if digits.len() == 0 {
        0
    } else {
        10 * decimal_value(digits.drop_last()) + digit_value(digits.last())
    }
}

/// How many digits `s` starts with.
pub open spec fn leading_digits(s: Seq<char>) -> nat
    decreases s.len(),
{
    if s.len() > 0 && is_digit(s[0]) {
        1 + leading_digits(s.skip(1))
    } else {
        0
    }
}

/// What a text denotes as a decimal integer between `lowest` and `highest`.
///
/// A leading `+` is always accepted, a leading `-` only where `lowest` is
/// negative.  The first thing that goes wrong from left to right decides the
/// error: digits that already exceed the range give an overflow even if a
/// stray character follows them.
pub open spec fn parse_decimal(s: Seq<char>, lowest: int, highest: int) -> Result<
    int,
    NumberError,
> {
    if s.len() == 0 {
        Err(NumberError::Empty)
    } else if s.len() == 1 && (s[0] == '+' || s[0] == '-') {
        Err(NumberError::InvalidDigit)
    } else {
        let negative = lowest < 0 && s[0] == '-';
        let digits = if s[0] == '+' || negative {
            s.skip(1)
        } else {
            s
        };
        let run = digits.take(leading_digits(digits) as int);
        let value = if negative {
            -decimal_value(run)
        } else {
            decimal_value(run)
        };
        if value < lowest {
            Err(NumberError::NegOverflow)
        } else if value > highest {
            Err(NumberError::PosOverflow)
        } else if run.len() < digits.len() {
            Err(NumberError::InvalidDigit)
        } else {
            Ok(value)
        }
    }
}

/// The leading digits end at the first character that is not a digit.
pub proof fn leading_digits_end(s: Seq<char>)
    ensures
        leading_digits(s) <= s.len(),
        forall|j: int| 0 <= j < leading_digits(s) ==> is_digit(#[trigger] s[j]),
        leading_digits(s) < s.len() ==> !is_digit(s[leading_digits(s) as int]),
    decreases s.len(),
{
    if s.len() > 0 && is_digit(s[0]) {
        let rest = s.skip(1);
        leading_digits_end(rest);
        assert forall|j: int| 0 <= j < leading_digits(s) implies is_digit(#[trigger] s[j]) by {
            if j > 0 {
                assert(s[j] == rest[j - 1]);
            }
        }
        if leading_digits(s) < s.len() {
            assert(s[leading_digits(s) as int] == rest[leading_digits(rest) as int]);
        }
    }
}

/// A longer run of digits never denotes a smaller number.
pub proof fn decimal_value_grows(digits: Seq<char>, shorter: int, longer: int)
    requires
        0 <= shorter <= longer <= digits.len(),
        forall|j: int| 0 <= j < longer ==> is_digit(#[trigger] digits[j]),
    ensures
        0 <= decimal_value(digits.take(shorter)) <= decimal_value(digits.take(longer)),
    decreases longer,
{
    if longer == 0 {
        assert(digits.take(shorter).len() == 0);
    } else {
        let whole = digits.take(longer);
        assert(whole.drop_last() == digits.take(longer - 1));
        assert(is_digit(whole.last()));
        if shorter < longer {
            decimal_value_grows(digits, shorter, longer - 1);
        } else {
            decimal_value_grows(digits, longer - 1, longer - 1);
        }
    }
}

/// How the digit scan of `parse_magnitude` ended.
enum Scan {
    /// Every character was a digit and the value fits.
    Value(u64),
    /// The digits read so far already exceed the limit.
    TooLarge,
    /// A character that is not a digit came before any overflow.
    Stray,
}

/// Reads the characters of `s` from position `start` on as an unsigned
/// decimal number of at most `limit`.
fn parse_magnitude(s: &str, start: usize, limit: u64) -> (r: Scan)
    requires
        start <= s@.len(),
        limit >= 9,
    ensures
        ({
            let digits = s@.skip(start as int);
            let run = digits.take(leading_digits(digits) as int);
            match r {
                Scan::Value(v) => run.len() == digits.len() && decimal_value(run) == v && v
                    <= limit,
                Scan::TooLarge => decimal_value(run) > limit,
                Scan::Stray => run.len() < digits.len() && decimal_value(run) <= limit,
            }
        }),
{
    let n: usize = s.unicode_len();
    let ghost digits = s@.skip(start as int);
    let mut value: u64 = 0;
    let mut i: usize = start;
    proof {
        leading_digits_end(digits);
        assert(digits.take(0).len() == 0);
    }
    while i < n
        invariant
            n == s@.len(),
            start <= i <= n,
            limit >= 9,
            digits == s@.skip(start as int),
            forall|j: int| 0 <= j < i - start ==> is_digit(#[trigger] digits[j]),
            value == decimal_value(digits.take(i - start)),
            value <= limit,
            leading_digits(digits) <= digits.len(),
            forall|j: int| 0 <= j < leading_digits(digits) ==> is_digit(#[trigger] digits[j]),
            leading_digits(digits) < digits.len() ==> !is_digit(
                digits[leading_digits(digits) as int],
            ),
        decreases n - i,
    {
        let c: u32 = s.get_char(i) as u32;
        let ghost k = i - start;
        assert(digits[k] == s@[i as int]);
        if c < 0x30 || c > 0x39 {
            proof {
                let run_len = leading_digits(digits) as int;
                if run_len < k {
                    assert(is_digit(digits[run_len]));
                }
                if run_len > k {
                    assert(is_digit(digits[k]));
                }
                assert(run_len == k);
            }
            return Scan::Stray;
        }
        let d: u64 = (c - 0x30) as u64;
        proof {
            let run_len = leading_digits(digits) as int;
            if run_len <= k {
                assert(is_digit(digits[run_len]));
            }
            assert(run_len >= k + 1);
            let next = digits.take(k + 1);
            assert(next.drop_last() == digits.take(k));
            assert(next.last() == digits[k]);
            assert(decimal_value(next) == 10 * value + d);
            decimal_value_grows(digits, k + 1, run_len);
        }
        if value > (limit - d) / 10 {
            return Scan::TooLarge;
        }
        value = value * 10 + d;
        i = i + 1;
    }
    proof {
        let k = i - start;
        let run_len = leading_digits(digits) as int;
        if run_len < k {
            assert(is_digit(digits[run_len]));
        }
        assert(run_len == k);
    }
    Scan::Value(value)
}

/// Reads `s` as an unsigned 64-bit decimal number.
pub fn parse_u64(s: &str) -> (r: Result<u64, NumberError>)
    ensures
        r matches Ok(v) ==> parse_decimal(s@, 0, u64::MAX as int) == Ok::<int, NumberError>(
            v as int,
        ),
        r matches Err(e) ==> parse_decimal(s@, 0, u64::MAX as int) == Err::<int, NumberError>(e),
{
    match parse_unsigned(s, u64::MAX) {
        Ok(v) => Ok(v),
        Err(e) => Err(e),
    }
}

/// Reads `s` as an unsigned 8-bit decimal number.
pub fn parse_u8(s: &str) -> (r: Result<u8, NumberError>)
    ensures
        r matches Ok(v) ==> parse_decimal(s@, 0, u8::MAX as int) == Ok::<int, NumberError>(
            v as int,
        ),
        r matches Err(e) ==> parse_decimal(s@, 0, u8::MAX as int) == Err::<int, NumberError>(e),
{
    match parse_unsigned(s, 255) {
        Ok(v) => Ok(v as u8),
        Err(e) => Err(e),
    }
}

/// Reads `s` as an unsigned decimal number of at most `highest`.
fn parse_unsigned(s: &str, highest: u64) -> (r: Result<u64, NumberError>)
    requires
        highest >= 9,
    ensures
        r matches Ok(v) ==> v <= highest && parse_decimal(s@, 0, highest as int) == Ok::<
            int,
            NumberError,
        >(v as int),
        r matches Err(e) ==> parse_decimal(s@, 0, highest as int) == Err::<int, NumberError>(e),
{
    let n: usize = s.unicode_len();
    if n == 0 {
        return Err(NumberError::Empty);
    }
    let first: char = s.get_char(0);
    if n == 1 && (first == '+' || first == '-') {
        return Err(NumberError::InvalidDigit);
    }
    let start: usize = if first == '+' {
        1
    } else {
        0
    };
    proof {
        assert(s@.skip(0) == s@);
        let digits = s@.skip(start as int);
        leading_digits_end(digits);
        decimal_value_grows(digits, 0, leading_digits(digits) as int);
    }
    match parse_magnitude(s, start, highest) {
        Scan::Value(v) => Ok(v),
        Scan::TooLarge => Err(NumberError::PosOverflow),
        Scan::Stray => Err(NumberError::InvalidDigit),
    }
}

/// Reads `s` as a signed 64-bit decimal number.
pub fn parse_i64(s: &str) -> (r: Result<i64, NumberError>)
    ensures
        r matches Ok(v) ==> parse_decimal(s@, i64::MIN as int, i64::MAX as int) == Ok::<
            int,
            NumberError,
        >(v as int),
        r matches Err(e) ==> parse_decimal(s@, i64::MIN as int, i64::MAX as int) == Err::<
            int,
            NumberError,
        >(e),
{
    let n: usize = s.unicode_len();
    if n == 0 {
        return Err(NumberError::Empty);
    }
    let first: char = s.get_char(0);
    if n == 1 && (first == '+' || first == '-') {
        return Err(NumberError::InvalidDigit);
    }
    let negative: bool = first == '-';
    let start: usize = if first == '+' || negative {
        1
    } else {
        0
    };
    proof {
        assert(s@.skip(0) == s@);
        let digits = s@.skip(start as int);
        leading_digits_end(digits);
        decimal_value_grows(digits, 0, leading_digits(digits) as int);
    }
    if negative {
        match parse_magnitude(s, start, 0x8000_0000_0000_0000) {
            Scan::Value(v) => {
                if v == 0x8000_0000_0000_0000 {
                    Ok(i64::MIN)
                } else {
                    Ok(-(v as i64))
                }
            },
            Scan::TooLarge => Err(NumberError::NegOverflow),
            Scan::Stray => Err(NumberError::InvalidDigit),
        }
    } else {
        match parse_magnitude(s, start, 0x7fff_ffff_ffff_ffff) {
            Scan::Value(v) => Ok(v as i64),
            Scan::TooLarge => Err(NumberError::PosOverflow),
            Scan::Stray => Err(NumberError::InvalidDigit),
        }
    }
}

} // verus!

//! Decimal numerals: what a text denotes and how a number is written.

use vstd::prelude::*;
use crate::text::same_text;

verus! {

/// Why a text is not the numeral of a `u64`.
#[derive(Clone, Copy, Debug, PartialEq, Eq, Structural)]
pub enum NumberFault {
    /// The text has no characters at all.
    Empty,
    /// A character that is not a decimal digit stands where a digit is due.
    InvalidDigit,
    /// The digits denote a number above `u64::MAX`.
    TooLarge,
}

impl NumberFault {
    /// The words that tell the fault: those in which the standard library
    /// tells the same fault of its own reading of integers.
    pub open spec fn words(self) -> Seq<char> {
        match self {
            NumberFault::Empty => "cannot parse integer from empty string"@,
            NumberFault::InvalidDigit => "invalid digit found in string"@,
            NumberFault::TooLarge => "number too large to fit in target type"@,
        }
    }

    /// The fault in words.
    pub fn message(&self) -> (message: String)
        ensures
            message@ == self.words(),
    {
        match self {
            NumberFault::Empty => String::from_str("cannot parse integer from empty string"),
            NumberFault::InvalidDigit => String::from_str("invalid digit found in string"),
            NumberFault::TooLarge => String::from_str("number too large to fit in target type"),
        }
    }
}

/// `c` is one of the ten ASCII decimal digits.
pub open spec fn is_digit(c: char) -> bool {
    '0' <= c <= '9'
}

/// The number that the digit `c` stands for.
pub open spec fn digit_value(c: char) -> nat
    recommends
        is_digit(c),
{
    (c as u32 - '0' as u32) as nat
}

/// The digit that stands for `d`.
pub open spec fn digit_char(d: nat) -> char
    recommends
        d < 10,
{
    (d + '0' as u32) as char
}

/// Every character of `s` is a decimal digit.
pub open spec fn all_digits(s: Seq<char>) -> bool {
    forall|i: int| 0 <= i < s.len() ==> is_digit(#[trigger] s[i])
}

/// The number that a run of digits denotes, most significant digit first.
pub open spec fn digits_value(s: Seq<char>) -> nat
    decreases s.len(),
{
    if s.len() == 0 {
        0
    } else {
        digits_value(s.drop_last()) * 10 + digit_value(s.last())
    }
}

/// How many digits `s` begins with.
pub open spec fn digit_run(s: Seq<char>) -> nat
    decreases s.len(),
{
    if s.len() > 0 && is_digit(s[0]) {
        1 + digit_run(s.skip(1))
    } else {
        0
    }
}

/// `s` without the one `+` that may precede the digits.
pub open spec fn unsigned_body(s: Seq<char>) -> Seq<char> {
    if s.len() > 0 && s[0] == '+' {
        s.skip(1)
    } else {
        s
    }
}

/// What a text denotes as an unsigned 64-bit numeral.
///
/// A numeral is one optional `+` followed by at least one digit and nothing
/// else. Read from the left, the first thing that is wrong decides the fault:
/// digits that already exceed `u64::MAX` give `TooLarge`, a character that is
/// no digit gives `InvalidDigit`.
pub open spec fn parse_decimal(s: Seq<char>) -> Result<u64, NumberFault> {
    let body = unsigned_body(s);
    let run = body.take(digit_run(body) as int);
    if s.len() == 0 {
        Err(NumberFault::Empty)
    } else if body.len() == 0 {
        Err(NumberFault::InvalidDigit)
    } else if digits_value(run) > u64::MAX {
        Err(NumberFault::TooLarge)
    } else if run.len() < body.len() {
        Err(NumberFault::InvalidDigit)
    } else {
        Ok(digits_value(body) as u64)
    }
}

/// The numeral of `n`: its decimal digits, without sign or leading zeros.
pub open spec fn decimal_text(n: nat) -> Seq<char>
    decreases n,
{
    if n < 10 {
        seq![digit_char(n)]
    } else {
        decimal_text(n / 10).push(digit_char(n % 10))
    }
}

fn digit_of(c: char) -> (d: Option<u64>)
    ensures
        is_digit(c) <==> d is Some,
        d matches Some(v) ==> v == digit_value(c) && v < 10,
{
    let code: u32 = c as u32;
    let zero: u32 = '0' as u32;
    if zero <= code && code <= zero + 9 {
        Some((code - zero) as u64)
    } else {
        None
    }
}

fn digit_text(d: u64) -> (text: &'static str)
    requires
        d < 10,
    ensures
        text@ == seq![digit_char(d as nat)],
{
    proof {
        reveal_strlit("0");
        reveal_strlit("1");
        reveal_strlit("2");
        reveal_strlit("3");
        reveal_strlit("4");
        reveal_strlit("5");
        reveal_strlit("6");
        reveal_strlit("7");
        reveal_strlit("8");
        reveal_strlit("9");
    }
    let text = if d == 0 {
        "0"
    } else if d == 1 {
        "1"
    } else if d == 2 {
        "2"
    } else if d == 3 {
        "3"
    } else if d == 4 {
        "4"
    } else if d == 5 {
        "5"
    } else if d == 6 {
        "6"
    } else if d == 7 {
        "7"
    } else if d == 8 {
        "8"
    } else {
        "9"
    };
    assert(text@ =~= seq![digit_char(d as nat)]);
    text
}

/// The digits before the first character that is no digit, and nothing more.
proof fn lemma_digit_run_bounds(s: Seq<char>)
    ensures
        digit_run(s) <= s.len(),
        all_digits(s.take(digit_run(s) as int)),
        digit_run(s) < s.len() ==> !is_digit(s[digit_run(s) as int]),
    decreases s.len(),
{
    if s.len() > 0 && is_digit(s[0]) {
        let rest = s.skip(1);
        lemma_digit_run_bounds(rest);
        let run = s.take(digit_run(s) as int);
        assert forall|i: int| 0 <= i < run.len() implies is_digit(#[trigger] run[i]) by {
            if i > 0 {
                assert(run[i] == rest.take(digit_run(rest) as int)[i - 1]);
            }
        }
    }
}

/// A run of digits that ends at `at` is the whole run that `s` begins with.
proof fn lemma_digit_run_is(s: Seq<char>, at: int)
    requires
        0 <= at <= s.len(),
        all_digits(s.take(at)),
        at < s.len() ==> !is_digit(s[at]),
    ensures
        digit_run(s) == at,
{
    lemma_digit_run_bounds(s);
    let run = digit_run(s) as int;
    if run < at {
        assert(s.take(at)[run] == s[run]);
    } else if run > at {
        assert(s.take(run)[at] == s[at]);
    }
}

/// Reading more digits never gives a smaller number.
proof fn lemma_value_grows(s: Seq<char>, shorter: int, longer: int)
    requires
        0 <= shorter <= longer <= s.len(),
    ensures
        digits_value(s.take(shorter)) <= digits_value(s.take(longer)),
    decreases longer,
{
    if shorter < longer {
        lemma_value_grows(s, shorter, longer - 1);
        assert(s.take(longer).drop_last() =~= s.take(longer - 1));
    }
}

/// Reads `text` as the numeral of a `u64`.
pub fn parse_u64(text: &str) -> (number: Result<u64, NumberFault>)
    ensures
        number == parse_decimal(text@),
{
    let len = text.unicode_len();
    if len == 0 {
        return Err(NumberFault::Empty);
    }
    let start: usize = if text.get_char(0) == '+' {
        1
    } else {
        0
    };
    if start == len {
        return Err(NumberFault::InvalidDigit);
    }
    let ghost body = unsigned_body(text@);
    let mut value: u64 = 0;
    let mut at: usize = start;
    while at < len
        invariant
            start <= at <= len,
            0 < len == text@.len(),
            body == unsigned_body(text@),
            body == text@.skip(start as int),
            all_digits(body.take(at - start)),
            value == digits_value(body.take(at - start)),
        decreases len - at,
    {
        let ghost seen = at - start;
        match digit_of(text.get_char(at)) {
            None => {
                proof {
                    lemma_digit_run_is(body, seen);
                }
                return Err(NumberFault::InvalidDigit);
            },
            Some(digit) => {
                proof {
                    assert(body.take(seen + 1).drop_last() =~= body.take(seen));
                    assert forall|i: int| 0 <= i < seen + 1 implies is_digit(
                        #[trigger] body.take(seen + 1)[i],
                    ) by {
                        if i < seen {
                            assert(body.take(seen + 1)[i] == body.take(seen)[i]);
                        }
                    }
                }
                if value > (u64::MAX - digit) / 10 {
                    proof {
                        lemma_digit_run_bounds(body);
                        let run = digit_run(body) as int;
                        if run <= seen {
                            assert(body.take(seen + 1)[run] == body[run]);
                        }
                        lemma_value_grows(body, seen + 1, run);
                    }
                    return Err(NumberFault::TooLarge);
                }
                value = value * 10 + digit;
            },
        }
        at += 1;
    }
    proof {
        assert(body.take(len - start) =~= body);
        lemma_digit_run_is(body, body.len() as int);
    }
    Ok(value)
}

/// Writes `number` as its numeral.
pub fn u64_text(number: u64) -> (text: String)
    ensures
        text@ == decimal_text(number as nat),
    decreases number,
{
    if number < 10 {
        String::from_str(digit_text(number))
    } else {
        let mut text = u64_text(number / 10);
        text.append(digit_text(number % 10));
        assert(text@ =~= decimal_text(number as nat));
        text
    }
}

/// The numeral of an integer: that of its magnitude, after a `-` where the
/// integer is negative.
pub open spec fn signed_text(n: int) -> Seq<char> {
    if n < 0 {
        seq!['-'] + decimal_text((-n) as nat)
    } else {
        decimal_text(n as nat)
    }
}

/// Writes `number` as its numeral.
pub fn i32_text(number: i32) -> (text: String)
    ensures
        text@ == signed_text(number as int),
{
    if number < 0 {
        let magnitude: u64 = (-(number as i64)) as u64;
        let mut text = String::from_str("-");
        text.append(u64_text(magnitude).as_str());
        proof {
            reveal_strlit("-");
            assert(text@ =~= signed_text(number as int));
        }
        text
    } else {
        u64_text(number as u64)
    }
}

/// A numeral is made of digits, and they denote the number it was written for.
pub proof fn lemma_numeral_denotes(n: nat)
    ensures
        decimal_text(n).len() >= 1,
        all_digits(decimal_text(n)),
        digits_value(decimal_text(n)) == n,
    decreases n,
{
    let text = decimal_text(n);
    assert(digit_value(digit_char(n % 10)) == n % 10);
    if n >= 10 {
        lemma_numeral_denotes(n / 10);
        assert(text.drop_last() =~= decimal_text(n / 10));
    } else {
        assert(digits_value(text.drop_last()) == 0);
    }
}

/// Reading the numeral that was written for a number gives that number back.
pub proof fn lemma_numeral_round_trip(n: u64)
    ensures
        parse_decimal(decimal_text(n as nat)) == Ok::<u64, NumberFault>(n),
{
    let text = decimal_text(n as nat);
    lemma_numeral_denotes(n as nat);
    assert(is_digit(text[0]));
    assert(text.take(text.len() as int) =~= text);
    lemma_digit_run_is(text, text.len() as int);
}

/// The 32-bit integer that a text is the numeral of, if it is that of any.
/// A numeral is taken as it is written: no `+`, no leading zeros, no `-0`.
pub open spec fn integer_written(text: Seq<char>) -> Option<i32> {
    if exists|n: i32| signed_text(n as int) == text {
        Some(choose|n: i32| signed_text(n as int) == text)
    } else {
        None
    }
}

/// The numeral of an integer shows its sign at its head, and the digits
/// after it read as its magnitude.
proof fn lemma_signed_numeral_reads(n: i32)
    ensures
        signed_text(n as int).len() >= 1,
        n < 0 ==> signed_text(n as int)[0] == '-' && parse_decimal(signed_text(n as int).skip(1))
            == Ok::<u64, NumberFault>((-n) as u64),
        n >= 0 ==> signed_text(n as int)[0] != '-' && parse_decimal(signed_text(n as int)) == Ok::<
            u64,
            NumberFault,
        >(n as u64),
{
    let text = signed_text(n as int);
    if n < 0 {
        lemma_numeral_denotes((-n) as nat);
        lemma_numeral_round_trip((-n) as u64);
        assert(text.skip(1) =~= decimal_text((-n) as nat));
    } else {
        lemma_numeral_denotes(n as nat);
        lemma_numeral_round_trip(n as u64);
        assert(is_digit(text[0]));
    }
}

/// Two integers with one numeral are one integer.
pub proof fn lemma_numerals_tell_integers_apart(one: i32, other: i32)
    requires
        signed_text(one as int) == signed_text(other as int),
    ensures
        one == other,
{
    lemma_signed_numeral_reads(one);
    lemma_signed_numeral_reads(other);
}

/// Reading the numeral that was written for an integer gives that integer
/// back.
pub proof fn lemma_signed_numeral_round_trip(n: i32)
    ensures
        integer_written(signed_text(n as int)) == Some(n),
{
    let text = signed_text(n as int);
    let read = choose|m: i32| signed_text(m as int) == text;
    lemma_numerals_tell_integers_apart(n, read);
}

/// Reads `text` as the numeral of an `i32`.
pub fn read_i32(text: &str) -> (number: Option<i32>)
    ensures
        number == integer_written(text@),
{
    let len = text.unicode_len();
    if len == 0 {
        assert forall|n: i32| signed_text(n as int) != text@ by {
            lemma_signed_numeral_reads(n);
        }
        return None;
    }
    let negative = text.get_char(0) == '-';
    let digits = if negative {
        text.substring_char(1, len)
    } else {
        text
    };
    let magnitude = match parse_u64(digits) {
        Ok(magnitude) => magnitude,
        Err(_) => {
            assert forall|n: i32| signed_text(n as int) != text@ by {
                lemma_signed_numeral_reads(n);
                if signed_text(n as int) == text@ && n < 0 {
                    assert(digits@ =~= text@.skip(1));
                }
            }
            return None;
        },
    };
    let limit: u64 = if negative {
        2147483648
    } else {
        2147483647
    };
    if magnitude > limit {
        assert forall|n: i32| signed_text(n as int) != text@ by {
            lemma_signed_numeral_reads(n);
            if signed_text(n as int) == text@ && n < 0 {
                assert(digits@ =~= text@.skip(1));
            }
        }
        return None;
    }
    let number: i32 = if negative {
        (-(magnitude as i64)) as i32
    } else {
        magnitude as i32
    };
    if same_text(i32_text(number).as_str(), text) {
        proof {
            let read = choose|n: i32| signed_text(n as int) == text@;
            lemma_numerals_tell_integers_apart(number, read);
        }
        Some(number)
    } else {
        assert forall|n: i32| signed_text(n as int) != text@ by {
            lemma_signed_numeral_reads(n);
            if signed_text(n as int) == text@ && n < 0 {
                assert(digits@ =~= text@.skip(1));
            }
        }
        None
    }
}

} // verus!

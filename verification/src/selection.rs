use crate::error::{AppError, AppErrorView};
use crate::text::{chars_of, spec_trim, trim_range};
use vstd::prelude::*;
use vstd::string::*;

verus! {

/// The character that stands for the digit `digit`.
pub open spec fn spec_digit(digit: nat) -> char {
    if digit == 0 {
        '0'
    } else if digit == 1 {
        '1'
    } else if digit == 2 {
        '2'
    } else if digit == 3 {
        '3'
    } else if digit == 4 {
        '4'
    } else if digit == 5 {
        '5'
    } else if digit == 6 {
        '6'
    } else if digit == 7 {
        '7'
    } else if digit == 8 {
        '8'
    } else {
        '9'
    }
}

/// The digit that `c` stands for, where it stands for one.
pub open spec fn spec_digit_value(c: char) -> Option<nat> {
    if c == '0' {
        Some(0)
    } else if c == '1' {
        Some(1)
    } else if c == '2' {
        Some(2)
    } else if c == '3' {
        Some(3)
    } else if c == '4' {
        Some(4)
    } else if c == '5' {
        Some(5)
    } else if c == '6' {
        Some(6)
    } else if c == '7' {
        Some(7)
    } else if c == '8' {
        Some(8)
    } else if c == '9' {
        Some(9)
    } else {
        None
    }
}

/// The number `n` written in decimal digits.
pub open spec fn spec_decimal(n: nat) -> Seq<char>
    decreases n,
{
    if n < 10 {
        seq![spec_digit(n)]
    } else {
        spec_decimal(n / 10).push(spec_digit(n % 10))
    }
}

/// The number that a run of decimal digits stands for; nothing where the
/// run holds anything but digits. An empty run stands for zero.
pub open spec fn spec_digits_value(digits: Seq<char>) -> Option<nat>
    decreases digits.len(),
{
    if digits.len() == 0 {
        Some(0)
    } else {
        match (spec_digits_value(digits.drop_last()), spec_digit_value(digits.last())) {
            (Some(high), Some(low)) => Some(high * 10 + low),
            _ => None,
        }
    }
}

/// The number that a text stands for: decimal digits, at least one, after
/// an optional plus sign.
pub open spec fn spec_number(text: Seq<char>) -> Option<nat> {
    let digits = if text.len() > 0 && text[0] == '+' {
        text.drop_first()
    } else {
        text
    };
    if digits.len() == 0 {
        None
    } else {
        spec_digits_value(digits)
    }
}

fn digit_str(digit: usize) -> (text: &'static str)
    requires
        digit < 10,
    ensures
        text@ == seq![spec_digit(digit as nat)],
{
    proof {
        reveal_strlit("0");
        reveal_strlit("1");
        reveal_strlit("2");
        reveal_strlit("3");
        reveal_strlit("4");
        reveal_strlit("5");
        reveal_strlit("6");
        reveal_strlit("7");
        reveal_strlit("8");
        reveal_strlit("9");
    }
    let text: &'static str = if digit == 0 {
        "0"
    } else if digit == 1 {
        "1"
    } else if digit == 2 {
        "2"
    } else if digit == 3 {
        "3"
    } else if digit == 4 {
        "4"
    } else if digit == 5 {
        "5"
    } else if digit == 6 {
        "6"
    } else if digit == 7 {
        "7"
    } else if digit == 8 {
        "8"
    } else {
        "9"
    };
    assert(text@ =~= seq![spec_digit(digit as nat)]);
    text
}

/// The number `n` written in decimal digits.
pub fn decimal(n: usize) -> (text: String)
    ensures
        text@ == spec_decimal(n as nat),
    decreases n,
{
    if n < 10 {
        String::from_str(digit_str(n))
    } else {
        let high: String = decimal(n / 10);
        let text: String = high.concat(digit_str(n % 10));
        assert(text@ =~= spec_decimal((n / 10) as nat).push(spec_digit((n % 10) as nat)));
        text
    }
}

fn digit_value(c: char) -> (value: Option<usize>)
    ensures
        match value {
            Some(v) => spec_digit_value(c) == Some(v as nat) && v < 10,
            None => spec_digit_value(c) is None,
        },
{
    if c == '0' {
        Some(0)
    } else if c == '1' {
        Some(1)
    } else if c == '2' {
        Some(2)
    } else if c == '3' {
        Some(3)
    } else if c == '4' {
        Some(4)
    } else if c == '5' {
        Some(5)
    } else if c == '6' {
        Some(6)
    } else if c == '7' {
        Some(7)
    } else if c == '8' {
        Some(8)
    } else if c == '9' {
        Some(9)
    } else {
        None
    }
}

/// The value of a run that holds digits only is at least the value of any
/// run that it starts with.
proof fn lemma_digits_value_grows(digits: Seq<char>, shorter: int)
    requires
        0 <= shorter <= digits.len(),
        spec_digits_value(digits) is Some,
    ensures
        spec_digits_value(digits.take(shorter)) is Some,
        spec_digits_value(digits.take(shorter))->0 <= spec_digits_value(digits)->0,
    decreases digits.len(),
{
    if shorter == digits.len() {
        assert(digits.take(shorter) =~= digits);
    } else {
        assert(digits.drop_last().take(shorter) =~= digits.take(shorter));
        lemma_digits_value_grows(digits.drop_last(), shorter);
    }
}

/// A run that starts with something other than digits holds something other
/// than digits.
proof fn lemma_digits_value_none(digits: Seq<char>, shorter: int)
    requires
        0 <= shorter <= digits.len(),
        spec_digits_value(digits.take(shorter)) is None,
    ensures
        spec_digits_value(digits) is None,
    decreases digits.len(),
{
    if shorter == digits.len() {
        assert(digits.take(shorter) =~= digits);
    } else {
        assert(digits.drop_last().take(shorter) =~= digits.take(shorter));
        lemma_digits_value_none(digits.drop_last(), shorter);
    }
}

/// The number that the part of `text` from `from` on stands for as a run of
/// digits, where it is one that fits.
fn digits_value(text: &Vec<char>, from: usize) -> (value: Option<usize>)
    requires
        from <= text@.len(),
    ensures
        match value {
            Some(v) => spec_digits_value(text@.skip(from as int)) == Some(v as nat),
            None => match spec_digits_value(text@.skip(from as int)) {
                Some(v) => v > usize::MAX,
                None => true,
            },
        },
{
    let ghost digits = text@.skip(from as int);
    let mut value: usize = 0;
    let mut i: usize = from;
    assert(digits.take(0) =~= Seq::<char>::empty());
    while i < text.len()
        invariant
            from <= i <= text@.len(),
            digits == text@.skip(from as int),
            spec_digits_value(digits.take(i - from)) == Some(value as nat),
        decreases text@.len() - i,
    {
        let ghost longer = digits.take(i - from + 1);
        assert(longer.drop_last() =~= digits.take(i - from));
        assert(longer.last() == text@[i as int]);
        match digit_value(text[i]) {
            None => {
                proof {
                    lemma_digits_value_none(digits, i - from + 1);
                }
                return None;
            },
            Some(low) => {
                if value > (usize::MAX - low) / 10 {
                    proof {
                        assert(spec_digits_value(longer) == Some((value * 10 + low) as nat));
                        assert(value * 10 + low > usize::MAX) by (nonlinear_arith)
                            requires
                                value > (usize::MAX - low) / 10,
                                0 <= low < 10,
                        ;
                        if spec_digits_value(digits) is Some {
                            lemma_digits_value_grows(digits, i - from + 1);
                        }
                    }
                    return None;
                }
                assert(value * 10 + low <= usize::MAX) by (nonlinear_arith)
                    requires
                        value <= (usize::MAX - low) / 10,
                        0 <= low < 10,
                ;
                value = value * 10 + low;
            },
        }
        i += 1;
    }
    assert(digits.take(i - from) =~= digits);
    Some(value)
}

/// The number that `text` stands for, where it is one that fits.
pub fn parse_number(text: &Vec<char>) -> (number: Option<usize>)
    ensures
        match number {
            Some(n) => spec_number(text@) == Some(n as nat),
            None => match spec_number(text@) {
                Some(n) => n > usize::MAX,
                None => true,
            },
        },
{
    let from: usize = if text.len() > 0 && text[0] == '+' {
        1
    } else {
        0
    };
    assert(text@.skip(1) =~= text@.drop_first());
    assert(text@.skip(0) =~= text@);
    if from == text.len() {
        None
    } else {
        digits_value(text, from)
    }
}

/// Writing a number and reading it back gives the number: the decimal
/// digits of `n` are at least one digit, hold digits only, and stand for
/// `n`.
pub proof fn lemma_decimal_round_trip(n: nat)
    ensures
        spec_decimal(n).len() > 0,
        spec_digit_value(spec_decimal(n)[0]) is Some,
        spec_digits_value(spec_decimal(n)) == Some(n),
        spec_number(spec_decimal(n)) == Some(n),
    decreases n,
{
    if n < 10 {
        let text = seq![spec_digit(n)];
        assert(text.drop_last() =~= Seq::<char>::empty());
        assert(spec_digits_value(text.drop_last()) == Some(0nat));
        assert(text.last() == spec_digit(n));
    } else {
        lemma_decimal_round_trip(n / 10);
        let high = spec_decimal(n / 10);
        let text = high.push(spec_digit(n % 10));
        assert(text.drop_last() =~= high);
        assert(text.last() == spec_digit(n % 10));
        assert(text[0] == high[0]);
        assert(n / 10 * 10 + n % 10 == n) by (nonlinear_arith);
    }
}

/// The message of the error for an answer that is no number.
pub open spec fn not_a_number_message() -> Seq<char> {
    "Invalid input, expected a number"@
}

/// The message of the error for a number that names none of `available`
/// devices.
pub open spec fn out_of_range_message(available: nat) -> Seq<char> {
    "Invalid selection, must be between 1 and "@ + spec_decimal(available)
}

/// The device that an answer selects among `available` devices numbered
/// from one: the position of the device in the list, counted from zero.
/// Numbers beyond `limit` count as no number.
pub open spec fn spec_select(answer: Seq<char>, available: nat, limit: nat) -> Result<
    nat,
    AppErrorView,
> {
    match spec_number(spec_trim(answer)) {
        Some(n) => if n > limit {
            Err(AppErrorView::Audio(not_a_number_message()))
        } else if 1 <= n <= available {
            Ok((n - 1) as nat)
        } else {
            Err(AppErrorView::Audio(out_of_range_message(available)))
        },
        None => Err(AppErrorView::Audio(not_a_number_message())),
    }
}

/// Reads the user's answer to the question which of `available` devices,
/// numbered from one, to use. White space around the number is
/// disregarded. Returns the device's position in the list, counted from
/// zero. An answer that is no number, or a number too large to be held, is
/// refused, and so is a number that names no device.
pub fn select_device(answer: &str, available: usize) -> (selected: Result<usize, AppError>)
    ensures
        match selected {
            Ok(index) => spec_select(answer@, available as nat, usize::MAX as nat) == Ok::<
                nat,
                AppErrorView,
            >(index as nat) && index < available,
            Err(e) => spec_select(answer@, available as nat, usize::MAX as nat) == Err::<
                nat,
                AppErrorView,
            >(e@),
        },
{
    let chars: Vec<char> = chars_of(answer);
    let (from, upto) = trim_range(&chars, 0, chars.len());
    assert(chars@.subrange(0, chars@.len() as int) =~= chars@);
    let mut trimmed: Vec<char> = Vec::new();
    let mut i: usize = from;
    while i < upto
        invariant
            from <= i <= upto <= chars@.len(),
            trimmed@ == chars@.subrange(from as int, i as int),
        decreases upto - i,
    {
        trimmed.push(chars[i]);
        assert(chars@.subrange(from as int, i as int).push(chars@[i as int]) =~= chars@.subrange(
            from as int,
            i as int + 1,
        ));
        i += 1;
    }
    match parse_number(&trimmed) {
        None => Err(AppError::Audio(String::from_str("Invalid input, expected a number"))),
        Some(n) => {
            if n < 1 || n > available {
                let message: String = String::from_str(
                    "Invalid selection, must be between 1 and ",
                ).concat(decimal(available).as_str());
                Err(AppError::Audio(message))
            } else {
                Ok(n - 1)
            }
        },
    }
}

} // verus!

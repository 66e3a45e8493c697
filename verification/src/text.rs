//! Numbers as text: how they are written in names and messages, and how they are read from
//! the environment.

use vstd::prelude::*;
use vstd::string::*;

verus! {

/// The decimal digit of a number below ten.
pub open spec fn decimal_digit(value: nat) -> char {
    (('0' as nat) + value) as char
}

/// A number in decimal notation, without leading zeros.
pub open spec fn decimal(value: nat) -> Seq<char>
    decreases value,
{
    if value < 10 {
        seq![decimal_digit(value)]
    } else {
        decimal(value / 10).push(decimal_digit(value % 10))
    }
}

/// Whether a character is a digit of a base between two and ten.
pub open spec fn is_digit(character: char, radix: nat) -> bool {
    '0' as nat <= character as nat && (character as nat) < '0' as nat + radix
}

/// The number that a sequence of digits stands for, the most significant digit first.
pub open spec fn digits_value(digits: Seq<char>, radix: nat) -> nat
    decreases digits.len(),
{
    if digits.len() == 0 {
        0
    } else {
        digits_value(digits.drop_last(), radix) * radix + (digits.last() as nat - '0' as nat) as nat
    }
}

/// What follows an optional plus sign.
pub open spec fn without_plus(text: Seq<char>) -> Seq<char> {
    if text.len() > 0 && text[0] == '+' {
        text.drop_first()
    } else {
        text
    }
}

/// The number that a text stands for: an optional plus sign and then digits only, at least one,
/// that give a number within the limit.
pub open spec fn parsed_number(text: Seq<char>, radix: nat, limit: nat) -> Option<nat> {
    let digits = without_plus(text);
    if digits.len() > 0 && (forall|i: int|
        0 <= i < digits.len() ==> is_digit(#[trigger] digits[i], radix)) && digits_value(
        digits,
        radix,
    ) <= limit {
        Some(digits_value(digits, radix))
    } else {
        None
    }
}

/// The digit of a number below ten.
fn digit_text(value: usize) -> (res: &'static str)
    requires
        value < 10,
    ensures
        res@ == seq![decimal_digit(value as nat)],
{
    proof {
        reveal_strlit("0");
        reveal_strlit("1");
        reveal_strlit("2");
        reveal_strlit("3");
        reveal_strlit("4");
        reveal_strlit("5");
        reveal_strlit("6");
        reveal_strlit("7");
        reveal_strlit("8");
        reveal_strlit("9");
    }
    match value {
        0 => "0",
        1 => "1",
        2 => "2",
        3 => "3",
        4 => "4",
        5 => "5",
        6 => "6",
        7 => "7",
        8 => "8",
        _ => "9",
    }
}

/// A number in decimal notation.
pub fn decimal_text(value: usize) -> (res: String)
    ensures
        res@ == decimal(value as nat),
    decreases value,
{
    let digit = digit_text(value % 10);
    if value < 10 {
        digit.to_owned()
    } else {
        let text = decimal_text(value / 10).concat(digit);
        assert(text@ == decimal(value as nat / 10).push(decimal_digit(value as nat % 10)));
        text
    }
}

/// Further digits make a number no smaller.
proof fn lemma_digits_value_grows(digits: Seq<char>, count: int, radix: nat)
    requires
        0 <= count <= digits.len(),
        radix >= 1,
    ensures
        digits_value(digits.take(count), radix) <= digits_value(digits, radix),
    decreases digits.len(),
{
    if count == digits.len() {
        assert(digits.take(count) == digits);
    } else {
        let shorter = digits.drop_last();
        lemma_digits_value_grows(shorter, count, radix);
        assert(shorter.take(count) == digits.take(count));
        assert(digits_value(shorter, radix) <= digits_value(shorter, radix) * radix)
            by (nonlinear_arith)
            requires
                radix >= 1,
        ;
    }
}

/// One more digit multiplies a number by the base and adds the digit.
proof fn lemma_digits_value_extends(digits: Seq<char>, count: int, radix: nat)
    requires
        0 <= count < digits.len(),
        is_digit(digits[count], radix),
    ensures
        digits_value(digits.take(count + 1), radix) == digits_value(digits.take(count), radix)
            * radix + (digits[count] as nat - '0' as nat),
{
    assert(digits.take(count + 1).drop_last() == digits.take(count));
}

/// The number that a text stands for, within a limit: an optional plus sign and then digits of
/// the base, at least one, and nothing else.
pub fn parse_number(text: &String, radix: u32, limit: u64) -> (res: Option<u64>)
    requires
        2 <= radix <= 10,
    ensures
        res is Some <==> parsed_number(text@, radix as nat, limit as nat) is Some,
        res matches Some(value) ==> parsed_number(text@, radix as nat, limit as nat) == Some(
            value as nat,
        ),
{
    let length: usize = text.as_str().unicode_len();
    let start: usize = if length > 0 && text.as_str().get_char(0) == '+' {
        1
    } else {
        0
    };
    let ghost digits = without_plus(text@);
    assert(digits == text@.skip(start as int));
    if start == length {
        return None;
    }
    let mut value: u64 = 0;
    let mut index: usize = start;
    assert(digits.take(0) == Seq::<char>::empty());
    while index < length
        invariant
            2 <= radix <= 10,
            start <= index <= length,
            length == text@.len(),
            digits == without_plus(text@),
            digits == text@.skip(start as int),
            value <= limit,
            value == digits_value(digits.take(index - start), radix as nat),
            forall|i: int| 0 <= i < index - start ==> is_digit(#[trigger] digits[i], radix as nat),
        decreases length - index,
    {
        let ghost position: int = index - start;
        let character: char = text.as_str().get_char(index);
        assert(digits[position] == character);
        let code: u32 = character as u32;
        if code < '0' as u32 || code >= '0' as u32 + radix {
            assert(!is_digit(digits[position], radix as nat));
            return None;
        }
        assert(value as u128 * radix as u128 <= u64::MAX * 10) by (nonlinear_arith)
            requires
                radix <= 10,
        ;
        let next: u128 = value as u128 * radix as u128 + (code - '0' as u32) as u128;
        proof {
            lemma_digits_value_extends(digits, position, radix as nat);
            lemma_digits_value_grows(digits, position + 1, radix as nat);
        }
        if next > limit as u128 {
            return None;
        }
        value = next as u64;
        index = index + 1;
    }
    assert(digits.take(length - start) == digits);
    Some(value)
}

/// A number in decimal notation consists of digits, and they stand for the number.
proof fn lemma_decimal_digits(value: nat)
    ensures
        decimal(value).len() > 0,
        forall|i: int| 0 <= i < decimal(value).len() ==> is_digit(#[trigger] decimal(value)[i], 10),
        digits_value(decimal(value), 10) == value,
    decreases value,
{
    let text = decimal(value);
    reveal_with_fuel(digits_value, 2);
    if value < 10 {
        assert(text.drop_last() == Seq::<char>::empty());
    } else {
        lemma_decimal_digits(value / 10);
        assert(text.drop_last() == decimal(value / 10));
    }
}

/// A number that is written in decimal notation is read back, if it is within the limit.
pub proof fn law_decimal_is_read_back(value: nat, limit: nat)
    requires
        value <= limit,
    ensures
        parsed_number(decimal(value), 10, limit) == Some(value),
{
    lemma_decimal_digits(value);
    assert(is_digit(decimal(value)[0], 10));
    assert(without_plus(decimal(value)) == decimal(value));
}

/// Different numbers are written differently.
pub proof fn law_decimal_is_unambiguous(left: nat, right: nat)
    requires
        decimal(left) == decimal(right),
    ensures
        left == right,
{
    lemma_decimal_digits(left);
    lemma_decimal_digits(right);
}

/// A number in decimal notation starts with a digit.
pub(crate) proof fn lemma_decimal_starts_with_digit(value: nat)
    ensures
        decimal(value).len() > 0,
        is_digit(decimal(value)[0], 10),
{
    lemma_decimal_digits(value);
}

/// Further digits do not bring a number back within a limit that it has passed.
proof fn lemma_limit_stays_passed(value: nat, radix: nat, digit: nat, limit: nat)
    requires
        value > limit,
        radix >= 1,
    ensures
        value * radix + digit > limit,
{
    assert(value * radix >= value) by (nonlinear_arith)
        requires
            radix >= 1,
    ;
}

/// A number is read character by character, in any base and within any limit. Nothing and a plus
/// sign alone are no number, and one digit behind them is the number of that digit. Every further
/// digit multiplies what the text before it stands for by the base and adds the digit. There is no
/// number where a character is no digit of the base, where the text before it is none, or where
/// the limit is passed.
pub proof fn law_number_is_read_digit_by_digit(
    text: &String,
    longer: &String,
    character: char,
    radix: u32,
    limit: u64,
    read: Option<u64>,
    read_longer: Option<u64>,
)
    requires
        2 <= radix <= 10,
        longer@ == text@.push(character),
        call_ensures(parse_number, (text, radix, limit), read),
        call_ensures(parse_number, (longer, radix, limit), read_longer),
    ensures
        text@.len() == 0 || text@ == seq!['+'] ==> {
            let digit = character as int - '0' as int;
            &&& read is None
            &&& read_longer is Some <==> 0 <= digit < radix && digit <= limit
            &&& read_longer matches Some(number) ==> number == digit
        },
        text@.len() > 0 && text@ != seq!['+'] ==> {
            let digit = character as int - '0' as int;
            &&& read_longer is Some <==> read is Some && 0 <= digit < radix && read->0 * radix
                + digit <= limit
            &&& read_longer matches Some(number) ==> number == read->0 * radix + digit
        },
{
    let base = radix as nat;
    let digits = without_plus(text@);
    let longer_digits = without_plus(longer@);
    reveal_with_fuel(digits_value, 2);
    if text@.len() == 0 {
        if character == '+' {
            assert(longer_digits.len() == 0);
        } else {
            assert(longer_digits == seq![character]);
            assert(longer_digits.drop_last() == Seq::<char>::empty());
            assert(longer_digits[0] == character);
        }
    } else {
        assert(longer_digits == digits.push(character));
        assert(longer_digits.drop_last() == digits);
        assert(longer_digits[digits.len() as int] == character);
        assert(forall|i: int| 0 <= i < digits.len() ==> longer_digits[i] == digits[i]);
        if text@ == seq!['+'] {
            assert(digits.len() == 0);
            assert(digits == Seq::<char>::empty());
        } else {
            assert(digits.len() > 0) by {
                if digits.len() == 0 {
                    assert(text@ == seq!['+']);
                }
            }
            if read is None && (forall|i: int|
                0 <= i < digits.len() ==> is_digit(#[trigger] digits[i], base)) {
                assert(digits_value(digits, base) > limit);
                if is_digit(character, base) {
                    lemma_limit_stays_passed(
                        digits_value(digits, base),
                        base,
                        (character as nat - '0' as nat) as nat,
                        limit as nat,
                    );
                }
            }
            if read is Some && is_digit(character, base) {
                assert forall|i: int| 0 <= i < longer_digits.len() implies is_digit(
                    #[trigger] longer_digits[i],
                    base,
                ) by {
                    if i < digits.len() {
                        assert(is_digit(digits[i], base));
                    }
                }
            }
            if read_longer is Some {
                assert forall|i: int| 0 <= i < digits.len() implies is_digit(
                    #[trigger] digits[i],
                    base,
                ) by {
                    assert(is_digit(longer_digits[i], base));
                }
                assert(is_digit(longer_digits[digits.len() as int], base));
                assert(digits_value(digits, base) <= digits_value(digits, base) * base)
                    by (nonlinear_arith)
                    requires
                        base >= 1,
                ;
            }
        }
    }
}

/// A number in decimal notation starts with a zero only if it is nothing else.
proof fn lemma_decimal_has_no_leading_zero(value: nat)
    ensures
        decimal(value)[0] == '0' ==> value == 0,
        value < 10 <==> decimal(value).len() == 1,
    decreases value,
{
    if value >= 10 {
        lemma_decimal_digits(value / 10);
        lemma_decimal_has_no_leading_zero(value / 10);
    }
}

/// A written number consists of decimal digits, has no zero before them, and is read back as the
/// number that was written.
pub proof fn law_written_number_is_read_back(value: usize, text: String, read: Option<u64>)
    requires
        call_ensures(decimal_text, (value,), text),
        call_ensures(parse_number, (&text, 10u32, usize::MAX as u64), read),
    ensures
        read == Some(value as u64),
        text@.len() > 0,
        forall|i: int|
            0 <= i < text@.len() ==> '0' as nat <= (#[trigger] text@[i]) as nat && text@[i] as nat
                <= '9' as nat,
        text@[0] == '0' ==> text@.len() == 1,
{
    lemma_decimal_digits(value as nat);
    lemma_decimal_has_no_leading_zero(value as nat);
    law_decimal_is_read_back(value as nat, usize::MAX as nat);
    assert(text@ == decimal(value as nat));
    assert forall|i: int| 0 <= i < text@.len() implies '0' as nat <= (
    #[trigger] text@[i]) as nat && text@[i] as nat <= '9' as nat by {
        assert(is_digit(decimal(value as nat)[i], 10));
    }
}

} // verus!

//! The one-time code of a challenge: six decimal digits that stand for a
//! number from 100000 to 999999.

use rand::Rng;
use vstd::prelude::*;
use vstd::std_specs::cmp::PartialEqSpecImpl;

verus! {

/// The smallest number a one-time code stands for.
pub const MIN_CODE: u32 = 100_000;

/// The largest number a one-time code stands for.
pub const MAX_CODE: u32 = 999_999;

/// The character for a decimal digit.
pub open spec fn digit_char(digit: nat) -> char {
    if digit == 0 {
        '0'
    } else if digit == 1 {
        '1'
    } else if digit == 2 {
        '2'
    } else if digit == 3 {
        '3'
    } else if digit == 4 {
        '4'
    } else if digit == 5 {
        '5'
    } else if digit == 6 {
        '6'
    } else if digit == 7 {
        '7'
    } else if digit == 8 {
        '8'
    } else {
        '9'
    }
}

/// The decimal digit that a character stands for, where it is one.
pub open spec fn digit_of(c: char) -> Option<nat> {
    if c == '0' {
        Some(0)
    } else if c == '1' {
        Some(1)
    } else if c == '2' {
        Some(2)
    } else if c == '3' {
        Some(3)
    } else if c == '4' {
        Some(4)
    } else if c == '5' {
        Some(5)
    } else if c == '6' {
        Some(6)
    } else if c == '7' {
        Some(7)
    } else if c == '8' {
        Some(8)
    } else if c == '9' {
        Some(9)
    } else {
        None
    }
}

/// A one-time code as text: six decimal digits, the first of them not `0`.
pub open spec fn is_code_text(text: Seq<char>) -> bool {
    &&& text.len() == 6
    &&& digit_of(text[0]) is Some
    &&& digit_of(text[0]) != Some(0nat)
    &&& forall|i: int| 1 <= i < 6 ==> digit_of(#[trigger] text[i]) is Some
}

/// The number that six digits stand for.
pub open spec fn code_number(text: Seq<char>) -> nat {
    100_000 * digit_of(text[0])->0 + 10_000 * digit_of(text[1])->0 + 1_000 * digit_of(
        text[2],
    )->0 + 100 * digit_of(text[3])->0 + 10 * digit_of(text[4])->0 + digit_of(text[5])->0
}

/// The six digits of a number below a million, the highest first.
pub open spec fn six_digits(number: nat) -> Seq<char> {
    seq![
        digit_char(number / 100_000 % 10),
        digit_char(number / 10_000 % 10),
        digit_char(number / 1_000 % 10),
        digit_char(number / 100 % 10),
        digit_char(number / 10 % 10),
        digit_char(number % 10),
    ]
}

/// A digit's character stands for the digit.
proof fn lemma_digit_char(digit: nat)
    requires
        digit < 10,
    ensures
        digit_of(digit_char(digit)) == Some(digit),
{
}

/// A character that stands for a digit is that digit's character.
proof fn lemma_digit_of(c: char)
    requires
        digit_of(c) is Some,
    ensures
        digit_of(c)->0 < 10,
        digit_char(digit_of(c)->0) == c,
{
}

/// Six digits are the decimal places of the number they make up.
proof fn lemma_places_of_digits(d0: nat, d1: nat, d2: nat, d3: nat, d4: nat, d5: nat)
    requires
        d0 < 10,
        d1 < 10,
        d2 < 10,
        d3 < 10,
        d4 < 10,
        d5 < 10,
    ensures
        ({
            let number = 100_000 * d0 + 10_000 * d1 + 1_000 * d2 + 100 * d3 + 10 * d4 + d5;
            &&& number / 100_000 % 10 == d0
            &&& number / 10_000 % 10 == d1
            &&& number / 1_000 % 10 == d2
            &&& number / 100 % 10 == d3
            &&& number / 10 % 10 == d4
            &&& number % 10 == d5
        }),
{
    let number = 100_000 * d0 + 10_000 * d1 + 1_000 * d2 + 100 * d3 + 10 * d4 + d5;
    assert(number / 100_000 == d0);
    assert(number / 10_000 == 10 * d0 + d1);
    assert(number / 1_000 == 100 * d0 + 10 * d1 + d2);
    assert(number / 100 == 1_000 * d0 + 100 * d1 + 10 * d2 + d3);
    assert(number / 10 == 10_000 * d0 + 1_000 * d1 + 100 * d2 + 10 * d3 + d4);
}

/// A number below a million is made up of its six decimal places.
proof fn lemma_digits_of_places(number: nat)
    requires
        number < 1_000_000,
    ensures
        number == 100_000 * (number / 100_000 % 10) + 10_000 * (number / 10_000 % 10) + 1_000 * (
        number / 1_000 % 10) + 100 * (number / 100 % 10) + 10 * (number / 10 % 10) + number % 10,
{
    let a = number / 10;
    let b = a / 10;
    let c = b / 10;
    let d = c / 10;
    let e = d / 10;
    assert(number / 100 == b);
    assert(number / 1_000 == c);
    assert(number / 10_000 == d);
    assert(number / 100_000 == e);
    assert(e < 10);
}

/// The text of a one-time code stands for a number from 100000 to 999999,
/// and writing that number out gives the text back.
pub proof fn lemma_code_text_number(text: Seq<char>)
    requires
        is_code_text(text),
    ensures
        MIN_CODE <= code_number(text) <= MAX_CODE,
        six_digits(code_number(text)) == text,
{
    assert(digit_of(text[1]) is Some);
    assert(digit_of(text[2]) is Some);
    assert(digit_of(text[3]) is Some);
    assert(digit_of(text[4]) is Some);
    assert(digit_of(text[5]) is Some);
    let d0 = digit_of(text[0])->0;
    let d1 = digit_of(text[1])->0;
    let d2 = digit_of(text[2])->0;
    let d3 = digit_of(text[3])->0;
    let d4 = digit_of(text[4])->0;
    let d5 = digit_of(text[5])->0;
    lemma_digit_of(text[0]);
    lemma_digit_of(text[1]);
    lemma_digit_of(text[2]);
    lemma_digit_of(text[3]);
    lemma_digit_of(text[4]);
    lemma_digit_of(text[5]);
    lemma_places_of_digits(d0, d1, d2, d3, d4, d5);
    assert(six_digits(code_number(text)) =~= text);
}

/// Writing out a number from 100000 to 999999 gives the text of a one-time
/// code, and that text stands for the number.
pub proof fn lemma_number_code_text(number: nat)
    requires
        MIN_CODE <= number <= MAX_CODE,
    ensures
        is_code_text(six_digits(number)),
        code_number(six_digits(number)) == number,
{
    let text = six_digits(number);
    let d0 = number / 100_000 % 10;
    let d1 = number / 10_000 % 10;
    let d2 = number / 1_000 % 10;
    let d3 = number / 100 % 10;
    let d4 = number / 10 % 10;
    let d5 = number % 10;
    lemma_digit_char(d0);
    lemma_digit_char(d1);
    lemma_digit_char(d2);
    lemma_digit_char(d3);
    lemma_digit_char(d4);
    lemma_digit_char(d5);
    lemma_digits_of_places(number);
    assert(d0 != 0) by {
        assert(1 <= number / 100_000 <= 9);
    }
    assert(text[0] == digit_char(d0));
    assert(text[1] == digit_char(d1));
    assert(text[2] == digit_char(d2));
    assert(text[3] == digit_char(d3));
    assert(text[4] == digit_char(d4));
    assert(text[5] == digit_char(d5));
    assert forall|i: int| 1 <= i < 6 implies digit_of(#[trigger] text[i]) is Some by {
        if i == 1 {
        } else if i == 2 {
        } else if i == 3 {
        } else if i == 4 {
        } else {
        }
    }
}

/// Whether a character is a decimal digit.
fn is_digit(c: char) -> (yes: bool)
    ensures
        yes == digit_of(c) is Some,
{
    c == '0' || c == '1' || c == '2' || c == '3' || c == '4' || c == '5' || c == '6' || c == '7'
        || c == '8' || c == '9'
}

/// A decimal digit as a string of one character.
fn digit_text(digit: u32) -> (text: &'static str)
    requires
        digit < 10,
    ensures
        text@ == seq![digit_char(digit as nat)],
{
    proof {
        reveal_strlit("0");
        reveal_strlit("1");
        reveal_strlit("2");
        reveal_strlit("3");
        reveal_strlit("4");
        reveal_strlit("5");
        reveal_strlit("6");
        reveal_strlit("7");
        reveal_strlit("8");
        reveal_strlit("9");
    }
    let text = if digit == 0 {
        "0"
    } else if digit == 1 {
        "1"
    } else if digit == 2 {
        "2"
    } else if digit == 3 {
        "3"
    } else if digit == 4 {
        "4"
    } else if digit == 5 {
        "5"
    } else if digit == 6 {
        "6"
    } else if digit == 7 {
        "7"
    } else if digit == 8 {
        "8"
    } else {
        "9"
    };
    assert(text@ =~= seq![digit_char(digit as nat)]);
    text
}

/// Calls `rand::Rng::gen_range` on `rand::thread_rng()` with the inclusive
/// range from `low` to `high`.
///
/// Trusted: the number lies in the range. Which number it is depends on
/// the generator, so nothing more is said. An empty range makes the
/// function panic and is left out. `thread_rng` panics where the system's
/// random source fails to seed the generator.
#[verifier::external_body]
fn random_between(low: u32, high: u32) -> (number: u32)
    requires
        low <= high,
    ensures
        low <= number <= high,
{
    rand::thread_rng().gen_range(low..=high)
}

/// A one-time code: six decimal digits that stand for a number from 100000
/// to 999999.
#[derive(Debug)]
pub struct TwoFaCode(String);

impl View for TwoFaCode {
    type V = Seq<char>;

    closed spec fn view(&self) -> Seq<char> {
        self.0@
    }
}

impl TwoFaCode {
    #[verifier::type_invariant]
    spec fn valid(self) -> bool {
        is_code_text(self.0@)
    }

    /// What parsing makes of a text: the text itself where it is a code,
    /// nothing otherwise.
    pub open spec fn spec_parse(raw: Seq<char>) -> Option<Seq<char>> {
        if is_code_text(raw) {
            Some(raw)
        } else {
            None
        }
    }

    /// Takes the string as a one-time code, or says that it is none.
    pub fn parse(code: String) -> (parsed: Result<TwoFaCode, String>)
        ensures
            match parsed {
                Ok(accepted) => TwoFaCode::spec_parse(code@) == Some(accepted@),
                Err(reason) => TwoFaCode::spec_parse(code@) is None && reason@
                    == "Invalid code format"@,
            },
    {
        let text = code.as_str();
        if text.unicode_len() != 6 {
            return Err("Invalid code format".to_owned());
        }
        let first = text.get_char(0);
        if !is_digit(first) || first == '0' {
            return Err("Invalid code format".to_owned());
        }
        let mut i: usize = 1;
        while i < 6
            invariant
                1 <= i <= 6,
                text@ == code@,
                text@.len() == 6,
                forall|j: int| 1 <= j < i ==> digit_of(#[trigger] text@[j]) is Some,
            decreases 6 - i,
        {
            if !is_digit(text.get_char(i)) {
                assert(digit_of(code@[i as int]) is None);
                return Err("Invalid code format".to_owned());
            }
            i += 1;
        }
        Ok(TwoFaCode(code))
    }

    /// The code that stands for a number, where the number has six digits.
    pub fn from_number(number: u32) -> (made: Option<TwoFaCode>)
        ensures
            match made {
                Some(code) => MIN_CODE <= number <= MAX_CODE && code@ == six_digits(number as nat),
                None => !(MIN_CODE <= number <= MAX_CODE),
            },
    {
        if number < MIN_CODE || number > MAX_CODE {
            None
        } else {
            Some(TwoFaCode::write(number))
        }
    }

    /// Writes a number of six digits out as a code.
    fn write(number: u32) -> (code: TwoFaCode)
        requires
            MIN_CODE <= number <= MAX_CODE,
        ensures
            code@ == six_digits(number as nat),
            is_code_text(code@),
    {
        let mut text = String::new();
        text.append(digit_text(number / 100_000 % 10));
        text.append(digit_text(number / 10_000 % 10));
        text.append(digit_text(number / 1_000 % 10));
        text.append(digit_text(number / 100 % 10));
        text.append(digit_text(number / 10 % 10));
        text.append(digit_text(number % 10));
        proof {
            assert(text@ =~= six_digits(number as nat));
            lemma_number_code_text(number as nat);
        }
        TwoFaCode(text)
    }

    /// The code as text: six digits, the first not `0`.
    pub fn as_ref(&self) -> (text: &str)
        ensures
            text@ == self@,
            is_code_text(self@),
    {
        proof {
            use_type_invariant(self);
        }
        self.0.as_str()
    }
}

impl Default for TwoFaCode {
    /// A code drawn at random.
    fn default() -> (code: TwoFaCode)
        ensures
            is_code_text(code@),
    {
        TwoFaCode::write(random_between(MIN_CODE, MAX_CODE))
    }
}

impl Clone for TwoFaCode {
    fn clone(&self) -> (copy: TwoFaCode)
        ensures
            copy@ == self@,
    {
        proof {
            use_type_invariant(self);
        }
        TwoFaCode(self.0.clone())
    }
}

impl PartialEq for TwoFaCode {
    fn eq(&self, other: &TwoFaCode) -> (equal: bool) {
        self.0 == other.0
    }
}

impl Eq for TwoFaCode {

}

/// Two codes are equal where their texts are.
impl PartialEqSpecImpl for TwoFaCode {
    open spec fn obeys_eq_spec() -> bool {
        true
    }

    open spec fn eq_spec(&self, other: &TwoFaCode) -> bool {
        self@ == other@
    }
}

} // verus!

//! Colors as red, green and blue, read from and written as hexadecimal text.

use vstd::prelude::*;
use vstd::string::StringExecFns;

verus! {

#[derive(Debug, Clone, Copy, PartialEq, Eq, Structural)]
pub struct HexColor {
    pub r: u8,
    pub g: u8,
    pub b: u8,
}

#[derive(Debug, Clone, Copy, PartialEq, Eq, Structural)]
pub enum HexColorError {
    InvalidLength,
    InvalidCharacter,
    ParseError,
}

impl HexColorError {
    /// The sentence that describes the error.
    pub open spec fn message_text(self) -> Seq<char> {
        match self {
            HexColorError::InvalidLength => "Invalid hex color length"@,
            HexColorError::InvalidCharacter => "Invalid hex character"@,
            HexColorError::ParseError => "Failed to parse hex color"@,
        }
    }

    /// The sentence that describes the error.
    pub fn message(&self) -> (text: &'static str)
        ensures
            text@ == self.message_text(),
    {
        match self {
            HexColorError::InvalidLength => "Invalid hex color length",
            HexColorError::InvalidCharacter => "Invalid hex character",
            HexColorError::ParseError => "Failed to parse hex color",
        }
    }
}

/// The value of a hexadecimal digit, in either case; `None` for any other
/// character.
pub open spec fn hex_digit_value(c: char) -> Option<int> {
    if '0' <= c <= '9' {
        Some(c as int - '0' as int)
    } else if 'a' <= c <= 'f' {
        Some(c as int - 'a' as int + 10)
    } else if 'A' <= c <= 'F' {
        Some(c as int - 'A' as int + 10)
    } else {
        None
    }
}

/// Every character of `text` is a hexadecimal digit.
pub open spec fn all_hex_digits(text: Seq<char>) -> bool {
    forall|i: int| 0 <= i < text.len() ==> hex_digit_value(#[trigger] text[i]) is Some
}

/// The lower-case hexadecimal digit of a value below sixteen.
pub open spec fn lower_hex_digit(value: int) -> char {
    if value < 10 {
        ('0' as int + value) as char
    } else {
        ('a' as int + value - 10) as char
    }
}

/// `text` without the `#` characters at its start.
pub open spec fn without_leading_hashes(text: Seq<char>) -> Seq<char>
    decreases text.len(),
{
    if text.len() > 0 && text[0] == '#' {
        without_leading_hashes(text.drop_first())
    } else {
        text
    }
}

/// The number of bytes that a character takes in UTF-8.
pub open spec fn utf8_width(c: char) -> int {
    if (c as int) < 0x80 {
        1
    } else if (c as int) < 0x800 {
        2
    } else if (c as int) < 0x10000 {
        3
    } else {
        4
    }
}

/// The number of bytes that `text` takes in UTF-8.
pub open spec fn utf8_size(text: Seq<char>) -> int
    decreases text.len(),
{
    if text.len() == 0 {
        0
    } else {
        utf8_size(text.drop_last()) + utf8_width(text.last())
    }
}

/// The value of the hexadecimal digit at `at` of `digits`.
pub open spec fn digit_at(digits: Seq<char>, at: int) -> int {
    hex_digit_value(digits[at])->0
}

impl HexColor {
    /// The color that a text stands for. The `#` characters at the start do
    /// not count. What is left must take three or six bytes, and all of it
    /// must be hexadecimal digits: three digits are one digit for each of
    /// red, green and blue, each standing for itself twice; six digits are
    /// two for each.
    pub open spec fn parsed(text: Seq<char>) -> Result<HexColor, HexColorError> {
        let digits = without_leading_hashes(text);
        if utf8_size(digits) == 3 {
            if all_hex_digits(digits) {
                Ok(
                    HexColor {
                        r: (17 * digit_at(digits, 0)) as u8,
                        g: (17 * digit_at(digits, 1)) as u8,
                        b: (17 * digit_at(digits, 2)) as u8,
                    },
                )
            } else {
                Err(HexColorError::InvalidCharacter)
            }
        } else if utf8_size(digits) == 6 {
            if all_hex_digits(digits) {
                Ok(
                    HexColor {
                        r: (16 * digit_at(digits, 0) + digit_at(digits, 1)) as u8,
                        g: (16 * digit_at(digits, 2) + digit_at(digits, 3)) as u8,
                        b: (16 * digit_at(digits, 4) + digit_at(digits, 5)) as u8,
                    },
                )
            } else {
                Err(HexColorError::InvalidCharacter)
            }
        } else {
            Err(HexColorError::InvalidLength)
        }
    }

    /// The text of a color: `#` and two lower-case hexadecimal digits for
    /// each of red, green and blue.
    pub open spec fn hex_text(self) -> Seq<char> {
        seq![
            '#',
            lower_hex_digit(self.r as int / 16),
            lower_hex_digit(self.r as int % 16),
            lower_hex_digit(self.g as int / 16),
            lower_hex_digit(self.g as int % 16),
            lower_hex_digit(self.b as int / 16),
            lower_hex_digit(self.b as int % 16),
        ]
    }

    /// Creates a new HexColor from RGB values
    pub fn new(r: u8, g: u8, b: u8) -> (color: Self)
        ensures
            color == (HexColor { r, g, b }),
    {
        Self { r, g, b }
    }

    /// Converts a hex string to HexColor
    /// Supports formats: "#RRGGBB", "RRGGBB", "#RGB", "RGB"
    pub fn from_hex(hex: &str) -> (result: Result<Self, HexColorError>)
        ensures
            result == Self::parsed(hex@),
    {
        let digits = trim_leading_hashes(hex);
        if digits.len() > 6 {
            proof {
                lemma_utf8_size_bounds(digits@);
            }
            return Err(HexColorError::InvalidLength);
        }
        let size = byte_size(&digits);
        if size != 3 && size != 6 {
            return Err(HexColorError::InvalidLength);
        }
        let mut values: Vec<u8> = Vec::new();
        let mut at: usize = 0;
        while at < digits.len()
            invariant
                digits@ == without_leading_hashes(hex@),
                size == utf8_size(digits@),
                size == 3 || size == 6,
                at <= digits.len(),
                values.len() == at,
                forall|i: int| 0 <= i < at ==> hex_digit_value(#[trigger] digits@[i]) == Some(values@[i] as int),
            decreases digits.len() - at,
        {
            match hex_value(digits[at]) {
                Some(value) => {
                    values.push(value);
                },
                None => {
                    assert(hex_digit_value(digits@[at as int]) is None);
                    return Err(HexColorError::InvalidCharacter);
                },
            }
            at += 1;
        }
        proof {
            lemma_utf8_size_of_digits(digits@);
        }
        if size == 3 {
            Ok(Self::new(17 * values[0], 17 * values[1], 17 * values[2]))
        } else {
            Ok(
                Self::new(
                    16 * values[0] + values[1],
                    16 * values[2] + values[3],
                    16 * values[4] + values[5],
                ),
            )
        }
    }

    /// Converts the HexColor back to a hex string
    pub fn to_hex(&self) -> (text: String)
        ensures
            text@ == self.hex_text(),
    {
        let mut text = String::from_str("#");
        proof {
            reveal_strlit("#");
        }
        text.append(lower_hex_str(self.r / 16));
        text.append(lower_hex_str(self.r % 16));
        text.append(lower_hex_str(self.g / 16));
        text.append(lower_hex_str(self.g % 16));
        text.append(lower_hex_str(self.b / 16));
        text.append(lower_hex_str(self.b % 16));
        assert(text@ =~= self.hex_text());
        text
    }

    /// Returns RGB values as a tuple
    pub fn to_rgb(&self) -> (rgb: (u8, u8, u8))
        ensures
            rgb == (self.r, self.g, self.b),
    {
        (self.r, self.g, self.b)
    }
}

/// A text takes at least one byte for each of its characters, and at most
/// four.
pub proof fn lemma_utf8_size_bounds(text: Seq<char>)
    ensures
        text.len() <= utf8_size(text) <= 4 * text.len(),
    decreases text.len(),
{
    if text.len() > 0 {
        lemma_utf8_size_bounds(text.drop_last());
    }
}

/// A text of hexadecimal digits takes one byte for each of them.
pub proof fn lemma_utf8_size_of_digits(text: Seq<char>)
    requires
        all_hex_digits(text),
    ensures
        utf8_size(text) == text.len(),
    decreases text.len(),
{
    if text.len() > 0 {
        let init = text.drop_last();
        assert forall|i: int| 0 <= i < init.len() implies hex_digit_value(#[trigger] init[i]) is Some by {
            assert(init[i] == text[i]);
        }
        lemma_utf8_size_of_digits(init);
        assert(hex_digit_value(text[text.len() - 1]) is Some);
    }
}

/// A lower-case hexadecimal digit stands for the value it was made of.
pub proof fn lemma_lower_hex_digit_value(value: int)
    requires
        0 <= value < 16,
    ensures
        hex_digit_value(lower_hex_digit(value)) == Some(value),
        lower_hex_digit(value) != '#',
        utf8_width(lower_hex_digit(value)) == 1,
{
}

/// The text of a color reads back as the color.
pub proof fn lemma_hex_text_reads_back(color: HexColor)
    ensures
        HexColor::parsed(color.hex_text()) == Ok::<HexColor, HexColorError>(color),
{
    let text = color.hex_text();
    let digits = text.drop_first();
    lemma_lower_hex_digit_value(color.r as int / 16);
    lemma_lower_hex_digit_value(color.r as int % 16);
    lemma_lower_hex_digit_value(color.g as int / 16);
    lemma_lower_hex_digit_value(color.g as int % 16);
    lemma_lower_hex_digit_value(color.b as int / 16);
    lemma_lower_hex_digit_value(color.b as int % 16);
    assert(digits.len() == 6);
    assert(without_leading_hashes(text) == digits) by {
        reveal_with_fuel(without_leading_hashes, 2);
    }
    assert(all_hex_digits(digits));
    lemma_utf8_size_of_digits(digits);
}

/// A color as the command line accepts it, `#` and three or six hexadecimal
/// digits, always reads as a color.
pub proof fn lemma_hash_and_digits_read(text: Seq<char>)
    requires
        text.len() == 4 || text.len() == 7,
        text[0] == '#',
        all_hex_digits(text.skip(1)),
    ensures
        HexColor::parsed(text) is Ok,
{
    let digits = text.skip(1);
    assert(digits =~= text.drop_first());
    assert(hex_digit_value(digits[0]) is Some);
    assert(without_leading_hashes(text) == digits) by {
        reveal_with_fuel(without_leading_hashes, 2);
    }
    lemma_utf8_size_of_digits(digits);
}

/// The value of a hexadecimal digit.
pub fn hex_value(c: char) -> (value: Option<u8>)
    ensures
        match value {
            Some(v) => hex_digit_value(c) == Some(v as int) && v < 16,
            None => hex_digit_value(c) is None,
        },
{
    let code = c as u32;
    if '0' as u32 <= code && code <= '9' as u32 {
        Some((code - '0' as u32) as u8)
    } else if 'a' as u32 <= code && code <= 'f' as u32 {
        Some((code - 'a' as u32 + 10) as u8)
    } else if 'A' as u32 <= code && code <= 'F' as u32 {
        Some((code - 'A' as u32 + 10) as u8)
    } else {
        None
    }
}

/// The characters of `text` behind the `#` characters at its start.
fn trim_leading_hashes(text: &str) -> (digits: Vec<char>)
    ensures
        digits@ == without_leading_hashes(text@),
{
    let ghost input = text@;
    let mut digits: Vec<char> = Vec::new();
    proof {
        assert(input.skip(0) =~= input);
    }
    for c in it: text.chars()
        invariant
            it.seq() == input,
            digits.len() == 0 ==> without_leading_hashes(input) == without_leading_hashes(
                input.skip(it.index() as int),
            ),
            digits.len() > 0 ==> without_leading_hashes(input) == digits@ + input.skip(
                it.index() as int,
            ),
    {
        let ghost rest = input.skip(it.index() as int);
        proof {
            assert(rest.drop_first() =~= input.skip(it.index() + 1));
            assert(rest[0] == c);
        }
        if digits.len() == 0 && c == '#' {
        } else {
            proof {
                if digits.len() == 0 {
                    assert(without_leading_hashes(rest) == rest);
                    assert(rest =~= seq![c] + input.skip(it.index() + 1));
                    assert(digits@.push(c) =~= seq![c]);
                } else {
                    assert(digits@ + rest =~= digits@.push(c) + input.skip(it.index() + 1));
                }
            }
            digits.push(c);
        }
    }
    proof {
        assert(input.skip(input.len() as int) =~= Seq::<char>::empty());
        assert(digits@ + Seq::<char>::empty() =~= digits@);
    }
    digits
}

/// The number of bytes that a character takes in UTF-8.
fn width_of(c: char) -> (width: usize)
    ensures
        width == utf8_width(c),
{
    let code = c as u32;
    if code < 0x80 {
        1
    } else if code < 0x800 {
        2
    } else if code < 0x10000 {
        3
    } else {
        4
    }
}

/// The number of bytes that a few characters take in UTF-8.
fn byte_size(text: &Vec<char>) -> (size: usize)
    requires
        text.len() <= 6,
    ensures
        size == utf8_size(text@),
{
    let mut size: usize = 0;
    let mut at: usize = 0;
    while at < text.len()
        invariant
            at <= text.len() <= 6,
            size == utf8_size(text@.take(at as int)),
            size <= 4 * at,
        decreases text.len() - at,
    {
        proof {
            assert(text@.take(at + 1).drop_last() =~= text@.take(at as int));
            assert(text@.take(at + 1).last() == text@[at as int]);
        }
        size += width_of(text[at]);
        at += 1;
    }
    proof {
        assert(text@.take(text.len() as int) =~= text@);
    }
    size
}

/// The lower-case hexadecimal digit of a value below sixteen, as a text.
pub(crate) fn lower_hex_str(value: u8) -> (digit: &'static str)
    requires
        value < 16,
    ensures
        digit@ == seq![lower_hex_digit(value as int)],
{
    proof {
        reveal_strlit("0");
        reveal_strlit("1");
        reveal_strlit("2");
        reveal_strlit("3");
        reveal_strlit("4");
        reveal_strlit("5");
        reveal_strlit("6");
        reveal_strlit("7");
        reveal_strlit("8");
        reveal_strlit("9");
        reveal_strlit("a");
        reveal_strlit("b");
        reveal_strlit("c");
        reveal_strlit("d");
        reveal_strlit("e");
        reveal_strlit("f");
    }
    let digit = match value {
        0 => "0",
        1 => "1",
        2 => "2",
        3 => "3",
        4 => "4",
        5 => "5",
        6 => "6",
        7 => "7",
        8 => "8",
        9 => "9",
        10 => "a",
        11 => "b",
        12 => "c",
        13 => "d",
        14 => "e",
        _ => "f",
    };
    assert(digit@ =~= seq![lower_hex_digit(value as int)]);
    digit
}

} // verus!

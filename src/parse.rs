use vstd::prelude::*;

verus! {

#[verifier::external_type_specification]
#[verifier::external_body]
pub struct ExParseIntError(std::num::ParseIntError);

#[verifier::external_type_specification]
#[verifier::external_body]
pub struct ExParseBoolError(std::str::ParseBoolError);

#[verifier::external_type_specification]
#[verifier::external_body]
pub struct ExParseCharError(std::char::ParseCharError);

/// The character that `text` writes: exactly one.
pub open spec fn char_value(text: Seq<char>) -> Option<char> {
    if text.len() == 1 {
        Some(text[0])
    } else {
        None
    }
}

/// The boolean that `text` writes: exactly `true` or `false`.
pub open spec fn bool_value(text: Seq<char>) -> Option<bool> {
    if text == seq!['t', 'r', 'u', 'e'] {
        Some(true)
    } else if text == seq!['f', 'a', 'l', 's', 'e'] {
        Some(false)
    } else {
        None
    }
}

/// An ASCII digit, `0` to `9`.
pub open spec fn is_decimal_digit(c: char) -> bool {
    '0' <= c && c <= '9'
}

/// The number that a string of decimal digits writes.
pub open spec fn decimal_digits_value(ds: Seq<char>) -> int
    decreases ds.len(),
{
    if ds.len() == 0 {
        0
    } else {
        decimal_digits_value(ds.drop_last()) * 10 + (ds.last() as int - '0' as int)
    }
}

/// One or more ASCII digits and nothing else.
pub open spec fn all_decimal_digits(ds: Seq<char>) -> bool {
    ds.len() > 0 && forall|i: int| 0 <= i < ds.len() ==> is_decimal_digit(#[trigger] ds[i])
}

/// The integer that `text` writes in base 10: one or more digits, after an
/// optional `+`, or, where `signed`, an optional `-`. Nothing else is allowed,
/// not even white space.
pub open spec fn decimal_value(text: Seq<char>, signed: bool) -> Option<int> {
    if all_decimal_digits(text) {
        Some(decimal_digits_value(text))
    } else if text.len() > 0 && text[0] == '+' && all_decimal_digits(text.drop_first()) {
        Some(decimal_digits_value(text.drop_first()))
    } else if signed && text.len() > 0 && text[0] == '-' && all_decimal_digits(text.drop_first()) {
        Some(-decimal_digits_value(text.drop_first()))
    } else {
        None
    }
}

/// `decimal_value`, where it lies in `lo ..= hi`.
pub open spec fn decimal_in_range(text: Seq<char>, signed: bool, lo: int, hi: int) -> Option<int> {
    match decimal_value(text, signed) {
        Some(n) => if lo <= n <= hi { Some(n) } else { None },
        None => None,
    }
}

/// A type that a configuration value can be read as.
pub trait EnvValue: Sized + View {
    /// Why a text does not denote a value.
    type Err;

    /// The value, as a view, that `text` denotes, if any.
    spec fn from_text(text: Seq<char>) -> Option<<Self as View>::V>;

    fn parse_text(text: &str) -> (r: Result<Self, Self::Err>)
        ensures
            match r {
                Ok(v) => Self::from_text(text@) == Some(v@),
                Err(_) => Self::from_text(text@) is None,
            },
    ;
}

impl EnvValue for String {
    type Err = std::convert::Infallible;

    /// Every text denotes itself.
    open spec fn from_text(text: Seq<char>) -> Option<Seq<char>> {
        Some(text)
    }

    fn parse_text(text: &str) -> (r: Result<String, std::convert::Infallible>) {
        Ok(text.to_owned())
    }
}

/// Relies on `<bool as FromStr>::from_str`, which accepts `true` and `false`
/// and nothing else.
#[verifier::external_body]
fn parse_bool(text: &str) -> (r: Result<bool, std::str::ParseBoolError>)
    ensures
        match r {
            Ok(v) => bool_value(text@) == Some(v),
            Err(_) => bool_value(text@) is None,
        },
{
    text.parse::<bool>()
}

impl EnvValue for bool {
    type Err = std::str::ParseBoolError;

    open spec fn from_text(text: Seq<char>) -> Option<bool> {
        bool_value(text)
    }

    fn parse_text(text: &str) -> (r: Result<bool, std::str::ParseBoolError>) {
        parse_bool(text)
    }
}

/// Relies on `<char as FromStr>::from_str`, which accepts a text of exactly one
/// character.
#[verifier::external_body]
fn parse_char(text: &str) -> (r: Result<char, std::char::ParseCharError>)
    ensures
        match r {
            Ok(v) => char_value(text@) == Some(v),
            Err(_) => char_value(text@) is None,
        },
{
    text.parse::<char>()
}

impl EnvValue for char {
    type Err = std::char::ParseCharError;

    open spec fn from_text(text: Seq<char>) -> Option<char> {
        char_value(text)
    }

    fn parse_text(text: &str) -> (r: Result<char, std::char::ParseCharError>) {
        parse_char(text)
    }
}

/// Relies on `<i32 as FromStr>::from_str`: base-10 text with an optional sign,
/// within the type's range.
#[verifier::external_body]
fn parse_i32(text: &str) -> (r: Result<i32, std::num::ParseIntError>)
    ensures
        match r {
            Ok(v) => decimal_in_range(text@, true, i32::MIN as int, i32::MAX as int) == Some(v as int),
            Err(_) => decimal_in_range(text@, true, i32::MIN as int, i32::MAX as int) is None,
        },
{
    text.parse::<i32>()
}

impl EnvValue for i32 {
    type Err = std::num::ParseIntError;

    open spec fn from_text(text: Seq<char>) -> Option<i32> {
        match decimal_in_range(text, true, i32::MIN as int, i32::MAX as int) {
            Some(n) => Some(n as i32),
            None => None,
        }
    }

    fn parse_text(text: &str) -> (r: Result<i32, std::num::ParseIntError>) {
        parse_i32(text)
    }
}

/// Relies on `<i64 as FromStr>::from_str`: base-10 text with an optional sign,
/// within the type's range.
#[verifier::external_body]
fn parse_i64(text: &str) -> (r: Result<i64, std::num::ParseIntError>)
    ensures
        match r {
            Ok(v) => decimal_in_range(text@, true, i64::MIN as int, i64::MAX as int) == Some(v as int),
            Err(_) => decimal_in_range(text@, true, i64::MIN as int, i64::MAX as int) is None,
        },
{
    text.parse::<i64>()
}

impl EnvValue for i64 {
    type Err = std::num::ParseIntError;

    open spec fn from_text(text: Seq<char>) -> Option<i64> {
        match decimal_in_range(text, true, i64::MIN as int, i64::MAX as int) {
            Some(n) => Some(n as i64),
            None => None,
        }
    }

    fn parse_text(text: &str) -> (r: Result<i64, std::num::ParseIntError>) {
        parse_i64(text)
    }
}

/// Relies on `<u32 as FromStr>::from_str`: base-10 text with an optional `+`,
/// within the type's range.
#[verifier::external_body]
fn parse_u32(text: &str) -> (r: Result<u32, std::num::ParseIntError>)
    ensures
        match r {
            Ok(v) => decimal_in_range(text@, false, u32::MIN as int, u32::MAX as int) == Some(v as int),
            Err(_) => decimal_in_range(text@, false, u32::MIN as int, u32::MAX as int) is None,
        },
{
    text.parse::<u32>()
}

impl EnvValue for u32 {
    type Err = std::num::ParseIntError;

    open spec fn from_text(text: Seq<char>) -> Option<u32> {
        match decimal_in_range(text, false, u32::MIN as int, u32::MAX as int) {
            Some(n) => Some(n as u32),
            None => None,
        }
    }

    fn parse_text(text: &str) -> (r: Result<u32, std::num::ParseIntError>) {
        parse_u32(text)
    }
}

/// Relies on `<u64 as FromStr>::from_str`: base-10 text with an optional `+`,
/// within the type's range.
#[verifier::external_body]
fn parse_u64(text: &str) -> (r: Result<u64, std::num::ParseIntError>)
    ensures
        match r {
            Ok(v) => decimal_in_range(text@, false, u64::MIN as int, u64::MAX as int) == Some(v as int),
            Err(_) => decimal_in_range(text@, false, u64::MIN as int, u64::MAX as int) is None,
        },
{
    text.parse::<u64>()
}

impl EnvValue for u64 {
    type Err = std::num::ParseIntError;

    open spec fn from_text(text: Seq<char>) -> Option<u64> {
        match decimal_in_range(text, false, u64::MIN as int, u64::MAX as int) {
            Some(n) => Some(n as u64),
            None => None,
        }
    }

    fn parse_text(text: &str) -> (r: Result<u64, std::num::ParseIntError>) {
        parse_u64(text)
    }
}

/// Relies on `<usize as FromStr>::from_str`: base-10 text with an optional `+`,
/// within the type's range.
#[verifier::external_body]
fn parse_usize(text: &str) -> (r: Result<usize, std::num::ParseIntError>)
    ensures
        match r {
            Ok(v) => decimal_in_range(text@, false, usize::MIN as int, usize::MAX as int) == Some(v as int),
            Err(_) => decimal_in_range(text@, false, usize::MIN as int, usize::MAX as int) is None,
        },
{
    text.parse::<usize>()
}

impl EnvValue for usize {
    type Err = std::num::ParseIntError;

    open spec fn from_text(text: Seq<char>) -> Option<usize> {
        match decimal_in_range(text, false, usize::MIN as int, usize::MAX as int) {
            Some(n) => Some(n as usize),
            None => None,
        }
    }

    fn parse_text(text: &str) -> (r: Result<usize, std::num::ParseIntError>) {
        parse_usize(text)
    }
}

/// Relies on `<i8 as FromStr>::from_str`: base-10 text with an optional sign,
/// within the type's range.
#[verifier::external_body]
fn parse_i8(text: &str) -> (r: Result<i8, std::num::ParseIntError>)
    ensures
        match r {
            Ok(v) => decimal_in_range(text@, true, i8::MIN as int, i8::MAX as int) == Some(v as int),
            Err(_) => decimal_in_range(text@, true, i8::MIN as int, i8::MAX as int) is None,
        },
{
    text.parse::<i8>()
}

impl EnvValue for i8 {
    type Err = std::num::ParseIntError;

    open spec fn from_text(text: Seq<char>) -> Option<i8> {
        match decimal_in_range(text, true, i8::MIN as int, i8::MAX as int) {
            Some(n) => Some(n as i8),
            None => None,
        }
    }

    fn parse_text(text: &str) -> (r: Result<i8, std::num::ParseIntError>) {
        parse_i8(text)
    }
}

/// Relies on `<i16 as FromStr>::from_str`: base-10 text with an optional sign,
/// within the type's range.
#[verifier::external_body]
fn parse_i16(text: &str) -> (r: Result<i16, std::num::ParseIntError>)
    ensures
        match r {
            Ok(v) => decimal_in_range(text@, true, i16::MIN as int, i16::MAX as int) == Some(v as int),
            Err(_) => decimal_in_range(text@, true, i16::MIN as int, i16::MAX as int) is None,
        },
{
    text.parse::<i16>()
}

impl EnvValue for i16 {
    type Err = std::num::ParseIntError;

    open spec fn from_text(text: Seq<char>) -> Option<i16> {
        match decimal_in_range(text, true, i16::MIN as int, i16::MAX as int) {
            Some(n) => Some(n as i16),
            None => None,
        }
    }

    fn parse_text(text: &str) -> (r: Result<i16, std::num::ParseIntError>) {
        parse_i16(text)
    }
}

/// Relies on `<isize as FromStr>::from_str`: base-10 text with an optional sign,
/// within the type's range.
#[verifier::external_body]
fn parse_isize(text: &str) -> (r: Result<isize, std::num::ParseIntError>)
    ensures
        match r {
            Ok(v) => decimal_in_range(text@, true, isize::MIN as int, isize::MAX as int) == Some(v as int),
            Err(_) => decimal_in_range(text@, true, isize::MIN as int, isize::MAX as int) is None,
        },
{
    text.parse::<isize>()
}

impl EnvValue for isize {
    type Err = std::num::ParseIntError;

    open spec fn from_text(text: Seq<char>) -> Option<isize> {
        match decimal_in_range(text, true, isize::MIN as int, isize::MAX as int) {
            Some(n) => Some(n as isize),
            None => None,
        }
    }

    fn parse_text(text: &str) -> (r: Result<isize, std::num::ParseIntError>) {
        parse_isize(text)
    }
}

/// Relies on `<u8 as FromStr>::from_str`: base-10 text with an optional `+`,
/// within the type's range.
#[verifier::external_body]
fn parse_u8(text: &str) -> (r: Result<u8, std::num::ParseIntError>)
    ensures
        match r {
            Ok(v) => decimal_in_range(text@, false, u8::MIN as int, u8::MAX as int) == Some(v as int),
            Err(_) => decimal_in_range(text@, false, u8::MIN as int, u8::MAX as int) is None,
        },
{
    text.parse::<u8>()
}

impl EnvValue for u8 {
    type Err = std::num::ParseIntError;

    open spec fn from_text(text: Seq<char>) -> Option<u8> {
        match decimal_in_range(text, false, u8::MIN as int, u8::MAX as int) {
            Some(n) => Some(n as u8),
            None => None,
        }
    }

    fn parse_text(text: &str) -> (r: Result<u8, std::num::ParseIntError>) {
        parse_u8(text)
    }
}

/// Relies on `<u16 as FromStr>::from_str`: base-10 text with an optional `+`,
/// within the type's range.
#[verifier::external_body]
fn parse_u16(text: &str) -> (r: Result<u16, std::num::ParseIntError>)
    ensures
        match r {
            Ok(v) => decimal_in_range(text@, false, u16::MIN as int, u16::MAX as int) == Some(v as int),
            Err(_) => decimal_in_range(text@, false, u16::MIN as int, u16::MAX as int) is None,
        },
{
    text.parse::<u16>()
}

impl EnvValue for u16 {
    type Err = std::num::ParseIntError;

    open spec fn from_text(text: Seq<char>) -> Option<u16> {
        match decimal_in_range(text, false, u16::MIN as int, u16::MAX as int) {
            Some(n) => Some(n as u16),
            None => None,
        }
    }

    fn parse_text(text: &str) -> (r: Result<u16, std::num::ParseIntError>) {
        parse_u16(text)
    }
}

} // verus!

//! Settings read from the environment.
use vstd::prelude::*;

use crate::text::{
    parse_i16, parse_i32, parse_i64, parse_i8, parse_isize, parse_u16, parse_u32, parse_u64, parse_u8,
    parse_usize, parsed_integer, push_chars,
};

verus! {

/// A value that a setting can hold, read from its text as std's `FromStr` reads it.
pub trait EnvValue: Sized {
    /// The value that the text `s` holds, if any.
    spec fn from_text_spec(s: Seq<char>) -> Option<Self>;

    /// Reads the value that `s` holds.
    fn from_text(s: &str) -> (res: Option<Self>)
        ensures
            res == Self::from_text_spec(s@),
    ;
}

impl EnvValue for u64 {
    open spec fn from_text_spec(s: Seq<char>) -> Option<u64> {
        match parsed_integer(s, false, 0, u64::MAX as int) {
            Some(v) => Some(v as u64),
            None => None,
        }
    }

    fn from_text(s: &str) -> (res: Option<u64>) {
        parse_u64(s)
    }
}

impl EnvValue for u8 {
    open spec fn from_text_spec(s: Seq<char>) -> Option<u8> {
        match parsed_integer(s, false, 0, u8::MAX as int) {
            Some(v) => Some(v as u8),
            None => None,
        }
    }

    fn from_text(s: &str) -> (res: Option<u8>) {
        parse_u8(s)
    }
}

impl EnvValue for u16 {
    open spec fn from_text_spec(s: Seq<char>) -> Option<u16> {
        match parsed_integer(s, false, 0, u16::MAX as int) {
            Some(v) => Some(v as u16),
            None => None,
        }
    }

    fn from_text(s: &str) -> (res: Option<u16>) {
        parse_u16(s)
    }
}

impl EnvValue for u32 {
    open spec fn from_text_spec(s: Seq<char>) -> Option<u32> {
        match parsed_integer(s, false, 0, u32::MAX as int) {
            Some(v) => Some(v as u32),
            None => None,
        }
    }

    fn from_text(s: &str) -> (res: Option<u32>) {
        parse_u32(s)
    }
}

impl EnvValue for usize {
    open spec fn from_text_spec(s: Seq<char>) -> Option<usize> {
        match parsed_integer(s, false, 0, usize::MAX as int) {
            Some(v) => Some(v as usize),
            None => None,
        }
    }

    fn from_text(s: &str) -> (res: Option<usize>) {
        parse_usize(s)
    }
}

impl EnvValue for i8 {
    open spec fn from_text_spec(s: Seq<char>) -> Option<i8> {
        match parsed_integer(s, true, i8::MIN as int, i8::MAX as int) {
            Some(v) => Some(v as i8),
            None => None,
        }
    }

    fn from_text(s: &str) -> (res: Option<i8>) {
        parse_i8(s)
    }
}

impl EnvValue for i16 {
    open spec fn from_text_spec(s: Seq<char>) -> Option<i16> {
        match parsed_integer(s, true, i16::MIN as int, i16::MAX as int) {
            Some(v) => Some(v as i16),
            None => None,
        }
    }

    fn from_text(s: &str) -> (res: Option<i16>) {
        parse_i16(s)
    }
}

impl EnvValue for i32 {
    open spec fn from_text_spec(s: Seq<char>) -> Option<i32> {
        match parsed_integer(s, true, i32::MIN as int, i32::MAX as int) {
            Some(v) => Some(v as i32),
            None => None,
        }
    }

    fn from_text(s: &str) -> (res: Option<i32>) {
        parse_i32(s)
    }
}

impl EnvValue for i64 {
    open spec fn from_text_spec(s: Seq<char>) -> Option<i64> {
        match parsed_integer(s, true, i64::MIN as int, i64::MAX as int) {
            Some(v) => Some(v as i64),
            None => None,
        }
    }

    fn from_text(s: &str) -> (res: Option<i64>) {
        parse_i64(s)
    }
}

impl EnvValue for isize {
    open spec fn from_text_spec(s: Seq<char>) -> Option<isize> {
        match parsed_integer(s, true, isize::MIN as int, isize::MAX as int) {
            Some(v) => Some(v as isize),
            None => None,
        }
    }

    fn from_text(s: &str) -> (res: Option<isize>) {
        parse_isize(s)
    }
}

/// Why a setting could not be read; each holds the setting's name.
pub enum EnvError {
    NotDefined(String),
    ParseError(String),
}

impl EnvError {
    /// The text that describes the error.
    pub fn message(&self) -> (res: String)
        ensures
            match self {
                EnvError::NotDefined(name) => res@ == "env '"@ + name@ + "' variable not defined"@,
                EnvError::ParseError(name) => res@ == "env '"@ + name@ + "' parse error"@,
            },
    {
        let mut out = String::new();
        push_chars(&mut out, "env '");
        match self {
            EnvError::NotDefined(name) => {
                push_chars(&mut out, name.as_str());
                push_chars(&mut out, "' variable not defined");
            },
            EnvError::ParseError(name) => {
                push_chars(&mut out, name.as_str());
                push_chars(&mut out, "' parse error");
            },
        }
        out
    }
}

/// Reads the setting `name`, whose text in the environment is `value` (`None`
/// where it is not set).
pub fn parse_env<T: EnvValue>(name: &str, value: Option<&str>) -> (res: Result<T, EnvError>)
    ensures
        match value {
            None => res matches Err(EnvError::NotDefined(n)) && n@ == name@,
            Some(v) => match T::from_text_spec(v@) {
                Some(x) => res == Ok::<T, EnvError>(x),
                None => res matches Err(EnvError::ParseError(n)) && n@ == name@,
            },
        },
{
    match value {
        None => Err(EnvError::NotDefined(String::from_str(name))),
        Some(v) => match T::from_text(v) {
            Some(x) => Ok(x),
            None => Err(EnvError::ParseError(String::from_str(name))),
        },
    }
}

} // verus!

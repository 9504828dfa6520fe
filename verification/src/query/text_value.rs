//! Values that can be written into and read back from text: the `Display`
//! and `FromStr` behaviour of strings and fixed-size integers.

use crate::decimal::{format_i64, format_u64, int_text, parse_int_text, parse_integer, read_cap};
use vstd::prelude::*;

verus! {

/// A value that can be read from text.
pub trait TextValue: Sized + View {
    /// The value read from `text`, or `None` when `text` does not denote one.
    spec fn spec_parse(text: Seq<char>) -> Option<<Self as View>::V>;

    /// Reads a value from `text`.
    fn from_text(text: &str) -> (r: Option<Self>)
        ensures
            r is Some <==> Self::spec_parse(text@) is Some,
            r matches Some(v) ==> Self::spec_parse(text@) == Some(v@),
    ;
}

/// A value that can be written as text.
pub trait TextDisplay: View {
    /// The text of a value.
    spec fn spec_text(v: <Self as View>::V) -> Seq<char>;

    /// Writes the value as text.
    fn to_text(&self) -> (r: String)
        ensures
            r@ == Self::spec_text(self@),
    ;
}

impl TextValue for String {
    open spec fn spec_parse(text: Seq<char>) -> Option<Seq<char>> {
        Some(text)
    }

    fn from_text(text: &str) -> (r: Option<String>) {
        Some(String::from_str(text))
    }
}

impl TextDisplay for String {
    open spec fn spec_text(v: Seq<char>) -> Seq<char> {
        v
    }

    fn to_text(&self) -> (r: String) {
        self.clone()
    }
}

impl<'a> TextDisplay for &'a str {
    open spec fn spec_text(v: Seq<char>) -> Seq<char> {
        v
    }

    fn to_text(&self) -> (r: String) {
        String::from_str(*self)
    }
}

/// The value of type range `[lo, hi]` read from `text`.
pub open spec fn parse_in_range(text: Seq<char>, signed: bool, lo: int, hi: int) -> Option<int> {
    match parse_int_text(text, signed) {
        Some(v) => if lo <= v <= hi {
            Some(v)
        } else {
            None
        },
        None => None,
    }
}

/// Reads an integer of range `[lo, hi]` from `text`.
fn parse_ranged(text: &str, signed: bool, lo: i128, hi: i128) -> (r: Option<i128>)
    requires
        -read_cap() < lo <= hi < read_cap(),
    ensures
        r == (match parse_in_range(text@, signed, lo as int, hi as int) {
            Some(v) => Some(v as i128),
            None => None,
        }),
{
    match parse_integer(text, signed) {
        Some(v) => {
            if lo <= v && v <= hi {
                Some(v)
            } else {
                None
            }
        },
        None => {
            proof {
                if let Some(v) = parse_int_text(text@, signed) {
                    assert(!(-read_cap() < v < read_cap()));
                }
            }
            None
        },
    }
}

impl TextValue for i8 {
    open spec fn spec_parse(text: Seq<char>) -> Option<i8> {
        match parse_in_range(text, true, i8::MIN as int, i8::MAX as int) {
            Some(v) => Some(v as i8),
            None => None,
        }
    }

    fn from_text(text: &str) -> (r: Option<i8>) {
        match parse_ranged(text, true, i8::MIN as i128, i8::MAX as i128) {
            Some(v) => Some(v as i8),
            None => None,
        }
    }
}

impl TextValue for i16 {
    open spec fn spec_parse(text: Seq<char>) -> Option<i16> {
        match parse_in_range(text, true, i16::MIN as int, i16::MAX as int) {
            Some(v) => Some(v as i16),
            None => None,
        }
    }

    fn from_text(text: &str) -> (r: Option<i16>) {
        match parse_ranged(text, true, i16::MIN as i128, i16::MAX as i128) {
            Some(v) => Some(v as i16),
            None => None,
        }
    }
}

impl TextValue for i32 {
    open spec fn spec_parse(text: Seq<char>) -> Option<i32> {
        match parse_in_range(text, true, i32::MIN as int, i32::MAX as int) {
            Some(v) => Some(v as i32),
            None => None,
        }
    }

    fn from_text(text: &str) -> (r: Option<i32>) {
        match parse_ranged(text, true, i32::MIN as i128, i32::MAX as i128) {
            Some(v) => Some(v as i32),
            None => None,
        }
    }
}

impl TextValue for i64 {
    open spec fn spec_parse(text: Seq<char>) -> Option<i64> {
        match parse_in_range(text, true, i64::MIN as int, i64::MAX as int) {
            Some(v) => Some(v as i64),
            None => None,
        }
    }

    fn from_text(text: &str) -> (r: Option<i64>) {
        match parse_ranged(text, true, i64::MIN as i128, i64::MAX as i128) {
            Some(v) => Some(v as i64),
            None => None,
        }
    }
}

impl TextValue for u8 {
    open spec fn spec_parse(text: Seq<char>) -> Option<u8> {
        match parse_in_range(text, false, 0, u8::MAX as int) {
            Some(v) => Some(v as u8),
            None => None,
        }
    }

    fn from_text(text: &str) -> (r: Option<u8>) {
        match parse_ranged(text, false, 0, u8::MAX as i128) {
            Some(v) => Some(v as u8),
            None => None,
        }
    }
}

impl TextValue for u16 {
    open spec fn spec_parse(text: Seq<char>) -> Option<u16> {
        match parse_in_range(text, false, 0, u16::MAX as int) {
            Some(v) => Some(v as u16),
            None => None,
        }
    }

    fn from_text(text: &str) -> (r: Option<u16>) {
        match parse_ranged(text, false, 0, u16::MAX as i128) {
            Some(v) => Some(v as u16),
            None => None,
        }
    }
}

impl TextValue for u32 {
    open spec fn spec_parse(text: Seq<char>) -> Option<u32> {
        match parse_in_range(text, false, 0, u32::MAX as int) {
            Some(v) => Some(v as u32),
            None => None,
        }
    }

    fn from_text(text: &str) -> (r: Option<u32>) {
        match parse_ranged(text, false, 0, u32::MAX as i128) {
            Some(v) => Some(v as u32),
            None => None,
        }
    }
}

impl TextValue for u64 {
    open spec fn spec_parse(text: Seq<char>) -> Option<u64> {
        match parse_in_range(text, false, 0, u64::MAX as int) {
            Some(v) => Some(v as u64),
            None => None,
        }
    }

    fn from_text(text: &str) -> (r: Option<u64>) {
        match parse_ranged(text, false, 0, u64::MAX as i128) {
            Some(v) => Some(v as u64),
            None => None,
        }
    }
}

impl TextDisplay for i8 {
    open spec fn spec_text(v: i8) -> Seq<char> {
        int_text(v as int)
    }

    fn to_text(&self) -> (r: String) {
        format_i64(*self as i64)
    }
}

impl TextDisplay for i16 {
    open spec fn spec_text(v: i16) -> Seq<char> {
        int_text(v as int)
    }

    fn to_text(&self) -> (r: String) {
        format_i64(*self as i64)
    }
}

impl TextDisplay for i32 {
    open spec fn spec_text(v: i32) -> Seq<char> {
        int_text(v as int)
    }

    fn to_text(&self) -> (r: String) {
        format_i64(*self as i64)
    }
}

impl TextDisplay for i64 {
    open spec fn spec_text(v: i64) -> Seq<char> {
        int_text(v as int)
    }

    fn to_text(&self) -> (r: String) {
        format_i64(*self)
    }
}

impl TextDisplay for u8 {
    open spec fn spec_text(v: u8) -> Seq<char> {
        int_text(v as int)
    }

    fn to_text(&self) -> (r: String) {
        format_u64(*self as u64)
    }
}

impl TextDisplay for u16 {
    open spec fn spec_text(v: u16) -> Seq<char> {
        int_text(v as int)
    }

    fn to_text(&self) -> (r: String) {
        format_u64(*self as u64)
    }
}

impl TextDisplay for u32 {
    open spec fn spec_text(v: u32) -> Seq<char> {
        int_text(v as int)
    }

    fn to_text(&self) -> (r: String) {
        format_u64(*self as u64)
    }
}

impl TextDisplay for u64 {
    open spec fn spec_text(v: u64) -> Seq<char> {
        int_text(v as int)
    }

    fn to_text(&self) -> (r: String) {
        format_u64(*self)
    }
}

} // verus!

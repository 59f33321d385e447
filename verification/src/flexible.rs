//! Identifiers that arrive as a number or as a text.

use crate::text::{
    chars_of, digits_only, keep_digits, parse_i32_chars, parse_i32_spec, string_of_range,
    trim_bounds, trimmed,
};
use vstd::prelude::*;
use vstd::std_specs::convert::FromSpecImpl;

verus! {

/// An identifier as it arrives: a number, or a text.
pub enum FlexibleId {
    Int(i32),
    Str(String),
}

/// An identifier as plain values.
pub enum FlexibleIdView {
    Int(i32),
    Str(Seq<char>),
}

impl View for FlexibleId {
    type V = FlexibleIdView;

    open spec fn view(&self) -> FlexibleIdView {
        match *self {
            FlexibleId::Int(value) => FlexibleIdView::Int(value),
            FlexibleId::Str(text) => FlexibleIdView::Str(text@),
        }
    }
}

impl Clone for FlexibleId {
    fn clone(&self) -> (r: Self)
        ensures
            r@ == self@,
    {
        match self {
            FlexibleId::Int(value) => FlexibleId::Int(*value),
            FlexibleId::Str(text) => FlexibleId::Str(text.clone()),
        }
    }
}

impl FlexibleIdView {
    /// The number that the identifier gives: the number itself, or what its
    /// trimmed text reads as a decimal integer of 32 bits.
    pub open spec fn parse_int(self) -> Option<i32> {
        match self {
            FlexibleIdView::Int(value) => Some(value),
            FlexibleIdView::Str(text) => parse_i32_spec(trimmed(text)),
        }
    }

    /// The text of the identifier, if it is one.
    pub open spec fn as_text(self) -> Option<Seq<char>> {
        match self {
            FlexibleIdView::Int(_) => None,
            FlexibleIdView::Str(text) => Some(text),
        }
    }

    /// The identifier that a text stands for: a number where its trimmed form
    /// reads as one, else the trimmed text.
    pub open spec fn of_text(text: Seq<char>) -> FlexibleIdView {
        match parse_i32_spec(trimmed(text)) {
            Some(value) => FlexibleIdView::Int(value),
            None => FlexibleIdView::Str(trimmed(text)),
        }
    }
}

/// The number that the digits of a text give, the rest of the text left out;
/// nothing where it has no digit or the number does not fit in 32 bits.
pub open spec fn digits_number(text: Seq<char>) -> Option<i32> {
    if digits_only(text).len() == 0 {
        None
    } else {
        parse_i32_spec(digits_only(text))
    }
}

/// The number that the digits of a text give.
pub fn extract_digits(value: &str) -> (r: Option<i32>)
    ensures
        r == digits_number(value@),
{
    let chars = chars_of(value);
    let digits = keep_digits(&chars);
    if digits.len() == 0 {
        None
    } else {
        parse_i32_chars(&digits)
    }
}

impl FlexibleId {
    /// The number that the identifier gives.
    pub fn parse_int(&self) -> (r: Option<i32>)
        ensures
            r == self@.parse_int(),
    {
        match self {
            FlexibleId::Int(value) => Some(*value),
            FlexibleId::Str(raw) => {
                let chars = chars_of(raw.as_str());
                let (a, b) = trim_bounds(&chars);
                let inner = slice_chars(&chars, a, b);
                parse_i32_chars(&inner)
            },
        }
    }

    /// The text of the identifier, if it is one.
    pub fn as_str(&self) -> (r: Option<&str>)
        ensures
            match r {
                Some(text) => self@.as_text() == Some(text@),
                None => self@.as_text() is None,
            },
    {
        match self {
            FlexibleId::Str(value) => Some(value.as_str()),
            _ => None,
        }
    }

    /// The identifier that a text stands for.
    pub fn from_text(value: &str) -> (r: FlexibleId)
        ensures
            r@ == FlexibleIdView::of_text(value@),
    {
        let chars = chars_of(value);
        let (a, b) = trim_bounds(&chars);
        let inner = slice_chars(&chars, a, b);
        match parse_i32_chars(&inner) {
            Some(number) => FlexibleId::Int(number),
            None => FlexibleId::Str(string_of_range(&chars, a, b)),
        }
    }
}

/// The characters `chars[from..to]`.
pub fn slice_chars(chars: &Vec<char>, from: usize, to: usize) -> (out: Vec<char>)
    requires
        from <= to <= chars.len(),
    ensures
        out@ == chars@.subrange(from as int, to as int),
{
    let mut out: Vec<char> = Vec::new();
    let mut i: usize = from;
    while i < to
        invariant
            from <= i <= to <= chars.len(),
            out@ == chars@.subrange(from as int, i as int),
        decreases to - i,
    {
        out.push(chars[i]);
        i = i + 1;
        assert(chars@.subrange(from as int, i as int) =~= chars@.subrange(
            from as int,
            i as int - 1,
        ).push(chars@[i as int - 1]));
    }
    out
}

impl<'a> From<&'a str> for FlexibleId {
    fn from(value: &'a str) -> (r: FlexibleId)
        ensures
            r@ == FlexibleIdView::of_text(value@),
    {
        FlexibleId::from_text(value)
    }
}

impl<'a> FromSpecImpl<&'a str> for FlexibleId {
    open spec fn obeys_from_spec() -> bool {
        false
    }

    open spec fn from_spec(value: &'a str) -> FlexibleId {
        arbitrary()
    }
}

impl From<String> for FlexibleId {
    fn from(value: String) -> (r: FlexibleId)
        ensures
            r@ == FlexibleIdView::of_text(value@),
    {
        FlexibleId::from_text(value.as_str())
    }
}

impl FromSpecImpl<String> for FlexibleId {
    open spec fn obeys_from_spec() -> bool {
        false
    }

    open spec fn from_spec(value: String) -> FlexibleId {
        arbitrary()
    }
}

} // verus!

//! Decoding of the header of a raw frame into typed metadata.
//!
//! A header is a list of cards. Each card has a keyword, the text it was
//! written with, and a typed value when it carries one. Real numbers are
//! carried by their bit pattern together with the renderings the catalogue
//! needs, so that no arithmetic on them happens here.

use vstd::prelude::*;
use crate::decimal::{decimal_string, decimal_text};
use crate::text::{chars_of, opt_view, owned, same_chars, unquote, unquoted};

verus! {

/// A real number of a header.
pub struct FloatValue {
    /// The IEEE-754 bit pattern of the number.
    pub bits: u64,
    /// The number converted to a 32-bit integer.
    pub truncated: i32,
    /// The number with one digit after the decimal point.
    pub one_decimal: String,
    /// The number with six digits after the decimal point.
    pub six_decimals: String,
}

/// A real number of a header as mathematical values.
pub struct FloatValueView {
    pub bits: u64,
    pub truncated: i32,
    pub one_decimal: Seq<char>,
    pub six_decimals: Seq<char>,
}

impl View for FloatValue {
    type V = FloatValueView;

    open spec fn view(&self) -> FloatValueView {
        FloatValueView {
            bits: self.bits,
            truncated: self.truncated,
            one_decimal: self.one_decimal@,
            six_decimals: self.six_decimals@,
        }
    }
}

impl FloatValue {
    /// A copy of this number.
    pub fn copy(&self) -> (r: FloatValue)
        ensures
            r@ == self@,
    {
        FloatValue {
            bits: self.bits,
            truncated: self.truncated,
            one_decimal: self.one_decimal.clone(),
            six_decimals: self.six_decimals.clone(),
        }
    }
}

/// What a numeric field holds: a whole number, kept exactly, or a real number.
pub enum Number {
    Whole(i64),
    Float(FloatValue),
}

/// What a numeric field holds, as mathematical values.
pub enum NumberView {
    Whole(i64),
    Float(FloatValueView),
}

impl View for Number {
    type V = NumberView;

    open spec fn view(&self) -> NumberView {
        match *self {
            Number::Whole(n) => NumberView::Whole(n),
            Number::Float(f) => NumberView::Float(f@),
        }
    }
}

impl Number {
    /// A copy of this number.
    pub fn copy(&self) -> (r: Number)
        ensures
            r@ == self@,
    {
        match self {
            Number::Whole(n) => Number::Whole(*n),
            Number::Float(f) => Number::Float(f.copy()),
        }
    }
}

/// The view of an optional number.
pub open spec fn opt_number_view(o: Option<Number>) -> Option<NumberView> {
    match o {
        Some(n) => Some(n@),
        None => None,
    }
}

/// The typed value of a header card.
pub enum HeaderValue {
    Text(String),
    Logical(bool),
    Integer(i32),
    Real(FloatValue),
    ComplexInteger(i64, i64),
    ComplexReal(FloatValue, FloatValue),
}

/// The typed value of a header card as mathematical values.
pub enum HeaderValueView {
    Text(Seq<char>),
    Logical(bool),
    Integer(i32),
    Real(FloatValueView),
    ComplexInteger(i64, i64),
    ComplexReal(FloatValueView, FloatValueView),
}

impl View for HeaderValue {
    type V = HeaderValueView;

    open spec fn view(&self) -> HeaderValueView {
        match *self {
            HeaderValue::Text(s) => HeaderValueView::Text(s@),
            HeaderValue::Logical(b) => HeaderValueView::Logical(b),
            HeaderValue::Integer(n) => HeaderValueView::Integer(n),
            HeaderValue::Real(f) => HeaderValueView::Real(f@),
            HeaderValue::ComplexInteger(a, b) => HeaderValueView::ComplexInteger(a, b),
            HeaderValue::ComplexReal(a, b) => HeaderValueView::ComplexReal(a@, b@),
        }
    }
}

/// One card of a header.
pub struct HeaderCard {
    /// The keyword.
    pub key: String,
    /// The value as it is shown when the header is listed.
    pub raw: String,
    /// The typed value, absent where the card carries none.
    pub value: Option<HeaderValue>,
}

/// A card of a header as mathematical values.
pub struct HeaderCardView {
    pub key: Seq<char>,
    pub raw: Seq<char>,
    pub value: Option<HeaderValueView>,
}

impl View for HeaderCard {
    type V = HeaderCardView;

    open spec fn view(&self) -> HeaderCardView {
        HeaderCardView {
            key: self.key@,
            raw: self.raw@,
            value: match self.value {
                Some(v) => Some(v@),
                None => None,
            },
        }
    }
}

/// The text of a truth value.
pub open spec fn logical_text(value: bool) -> Seq<char> {
    if value {
        "true"@
    } else {
        "false"@
    }
}

/// The text that a card gives to a string field: a text value without the
/// white space and quotation marks around it, a real number with six decimals,
/// an integer in decimal, a truth value as `true` or `false`, and nothing
/// where the card has no value or a complex one.
pub open spec fn string_value(card: HeaderCardView) -> Option<Seq<char>> {
    match card.value {
        Some(HeaderValueView::Text(s)) => Some(unquoted(s)),
        Some(HeaderValueView::Real(f)) => Some(f.six_decimals),
        Some(HeaderValueView::Integer(n)) => Some(decimal_text(n as int)),
        Some(HeaderValueView::Logical(b)) => Some(logical_text(b)),
        _ => None,
    }
}

/// The number that a card gives to an integer field: an integer itself, a
/// real number converted to an integer, nothing otherwise.
pub open spec fn int_value(card: HeaderCardView) -> Option<i32> {
    match card.value {
        Some(HeaderValueView::Integer(n)) => Some(n),
        Some(HeaderValueView::Real(f)) => Some(f.truncated),
        _ => None,
    }
}

/// The number that a card gives to a real field: a real number itself, an
/// integer kept exactly, nothing otherwise.
pub open spec fn float_value(card: HeaderCardView) -> Option<NumberView> {
    match card.value {
        Some(HeaderValueView::Real(f)) => Some(NumberView::Float(f)),
        Some(HeaderValueView::Integer(n)) => Some(NumberView::Whole(n as i64)),
        _ => None,
    }
}

/// Coerces the value of a card to a string field.
pub fn extract_string_value(card: &HeaderCard) -> (r: Option<String>)
    ensures
        opt_view(r) == string_value(card@),
{
    match &card.value {
        Some(HeaderValue::Text(s)) => Some(unquote(s.as_str())),
        Some(HeaderValue::Real(f)) => Some(f.six_decimals.clone()),
        Some(HeaderValue::Integer(n)) => Some(decimal_string(*n as i64)),
        Some(HeaderValue::Logical(b)) => Some(
            if *b {
                owned("true")
            } else {
                owned("false")
            },
        ),
        _ => None,
    }
}

/// Coerces the value of a card to an integer field.
pub fn extract_int_value(card: &HeaderCard) -> (r: Option<i32>)
    ensures
        r == int_value(card@),
{
    match &card.value {
        Some(HeaderValue::Integer(n)) => Some(*n),
        Some(HeaderValue::Real(f)) => Some(f.truncated),
        _ => None,
    }
}

/// Coerces the value of a card to a real field.
pub fn extract_float_value(card: &HeaderCard) -> (r: Option<Number>)
    ensures
        opt_number_view(r) == float_value(card@),
{
    match &card.value {
        Some(HeaderValue::Real(f)) => Some(Number::Float(f.copy())),
        Some(HeaderValue::Integer(n)) => Some(Number::Whole(*n as i64)),
        _ => None,
    }
}

/// Whether the characters `key` spell the keyword `word`.
pub fn is_keyword(key: &Vec<char>, word: &str) -> (r: bool)
    ensures
        r == (key@ == word@),
{
    let w = chars_of(word);
    same_chars(key, &w)
}

} // verus!

//! Optimization levels: an integer, or `s` or `z`.
use vstd::prelude::*;

use crate::text::{
    concat2, decimal, i64_to_decimal, lemma_decimal_digits, parse_u32, parse_u32_text,
    signed_decimal, str_eq, digit_value,
};

verus! {

/// An optimization level, kept as the text by which it is written.
#[derive(Debug, Eq, PartialEq)]
pub struct OptLevel(pub String);

impl Clone for OptLevel {
    /// An equal copy.
    fn clone(&self) -> (res: Self)
        ensures
            res == *self,
    {
        OptLevel(self.0.clone())
    }
}

/// How an optimization level is written back: as an integer where its text
/// reads as one, as text otherwise.
#[derive(Clone, Debug, Eq, PartialEq)]
pub enum OptLevelValue {
    Integer(u32),
    Text(String),
}

/// The message for a textual level other than `s` and `z`.
pub open spec fn invalid_level_message(found: Seq<char>) -> Seq<char> {
    "must be an integer, `z`, or `s`, but found: "@ + found
}

impl OptLevel {
    /// The level given by an integer, kept as its decimal text.
    pub fn from_integer(value: i64) -> (res: OptLevel)
        ensures
            res.0@ == signed_decimal(value as int),
    {
        OptLevel(i64_to_decimal(value))
    }

    /// The level given by text: only `s` and `z` are accepted.
    pub fn from_text(value: &str) -> (res: Result<OptLevel, String>)
        ensures
            res is Ok <==> (value@ == "s"@ || value@ == "z"@),
            res matches Ok(level) ==> level.0@ == value@,
            res matches Err(msg) ==> msg@ == invalid_level_message(value@),
    {
        if str_eq(value, "s") || str_eq(value, "z") {
            Ok(OptLevel(String::from_str(value)))
        } else {
            Err(concat2("must be an integer, `z`, or `s`, but found: ", value))
        }
    }

    /// How the level is written back: as the unsigned integer its text
    /// reads as, or as the text itself.
    pub fn written_form(&self) -> (res: OptLevelValue)
        ensures
            match parse_u32(self.0@) {
                Some(n) => res == OptLevelValue::Integer(n),
                None => res matches OptLevelValue::Text(t) && t@ == self.0@,
            },
    {
        match parse_u32_text(self.0.as_str()) {
            Some(n) => OptLevelValue::Integer(n),
            None => OptLevelValue::Text(self.0.clone()),
        }
    }
}

/// Law: a level read from an integer between 0 and `u32::MAX` is written
/// back as that same integer, and a level read from a negative integer is
/// written back as text.
pub proof fn law_integer_level_round_trip(value: int)
    requires
        value <= u32::MAX,
    ensures
        0 <= value ==> parse_u32(signed_decimal(value)) == Some(value as u32),
        value < 0 ==> parse_u32(signed_decimal(value)) is None,
{
    if value >= 0 {
        lemma_decimal_digits(value as nat);
        assert(decimal(value as nat)[0] != '+');
    } else {
        let t = signed_decimal(value);
        lemma_decimal_digits((-value) as nat);
        assert(t[0] == '-');
        assert(digit_value(t[0]) is None);
        assert(!crate::text::all_digits(t));
    }
}

/// Law: the textual levels `s` and `z` are written back as the same text.
pub proof fn law_text_level_round_trip(value: Seq<char>)
    requires
        value == "s"@ || value == "z"@,
    ensures
        parse_u32(value) is None,
{
    reveal_strlit("s");
    reveal_strlit("z");
    assert(digit_value(value[0]) is None);
    assert(!crate::text::all_digits(value));
}

} // verus!

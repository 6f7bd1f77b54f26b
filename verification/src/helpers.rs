//! Coercions from a JSON value of uncertain type to the type a field wants.
//!
//! The service sends booleans as `"1"` and `"0"`, integers as strings, and
//! the other way round. Each coercion takes whatever came and gives the typed
//! value if one can be had, and nothing otherwise. None of them fails.

use vstd::prelude::*;
use crate::float_text::{is_float_text, writes_float};
use crate::json::{pointee, JsonNumber, JsonValue};
use crate::render::{canonical_text, render};
use crate::text::{
    all_digits, decimal_text, lemma_decimal_text_unquoted, parse_i64, parsed_i64, str_eq,
    trim_matches, trimmed,
};
use crate::types::{float_of, text_of, FloatModel, FloatValue};

verus! {

/// The signed 64-bit integer with the bit pattern of `n`: `n` itself up to
/// the largest signed value, and `n` less two to the 64th above it.
pub open spec fn reinterpreted(n: u64) -> i64 {
    if n <= i64::MAX {
        n as i64
    } else {
        (n - 0x1_0000_0000_0000_0000) as i64
    }
}

/// A value read as text: a string gives its characters, a null or a missing
/// value gives nothing, and any other value gives its compact text without
/// the quotes at either end.
pub open spec fn string_coercion(v: Option<JsonValue>) -> Option<Seq<char>> {
    match v {
        None => None,
        Some(JsonValue::Null) => None,
        Some(JsonValue::String(s)) => Some(s@),
        Some(other) => Some(trimmed(canonical_text(other), '"')),
    }
}

/// A value read as a signed integer: an integer gives itself, one above the
/// signed range wrapped round; a string gives the decimal integer it writes;
/// everything else gives nothing.
pub open spec fn integer_coercion(v: Option<JsonValue>) -> Option<i64> {
    match v {
        Some(JsonValue::Number(JsonNumber::PosInt(n))) => Some(reinterpreted(n)),
        Some(JsonValue::Number(JsonNumber::NegInt(n))) => Some(n),
        Some(JsonValue::String(s)) => parsed_i64(s@),
        _ => None,
    }
}

/// A value read as a boolean: a boolean gives itself; the strings `true` and
/// `1` give true, `false` and `0` give false, any other string nothing; an
/// integer gives whether it is not zero; everything else gives nothing.
pub open spec fn boolean_coercion(v: Option<JsonValue>) -> Option<bool> {
    match v {
        None => None,
        Some(JsonValue::Null) => None,
        Some(JsonValue::Bool(b)) => Some(b),
        Some(JsonValue::String(s)) => if s@ == "true"@ || s@ == "1"@ {
            Some(true)
        } else if s@ == "false"@ || s@ == "0"@ {
            Some(false)
        } else {
            None
        },
        Some(other) => match integer_coercion(Some(other)) {
            Some(n) => Some(n != 0),
            None => None,
        },
    }
}

/// A value read as a float: a number gives itself, a string that writes a
/// float gives that text, everything else gives nothing.
pub open spec fn float_coercion(v: Option<JsonValue>) -> Option<FloatModel> {
    match v {
        Some(JsonValue::Number(JsonNumber::PosInt(n))) => Some(FloatModel::Unsigned(n)),
        Some(JsonValue::Number(JsonNumber::NegInt(n))) => Some(FloatModel::Signed(n)),
        Some(JsonValue::Number(JsonNumber::Float { bits, text })) => Some(FloatModel::Bits(bits)),
        Some(JsonValue::String(s)) => if is_float_text(s@) {
            Some(FloatModel::Decimal(s@))
        } else {
            None
        },
        _ => None,
    }
}

/// Reading a string as text gives that very string.
pub proof fn lemma_string_reads_as_itself(s: String)
    ensures
        string_coercion(Some(JsonValue::String(s))) == Some(s@),
{
}

/// Reading an integer as text gives its decimal text.
pub proof fn lemma_integer_reads_as_decimal(n: JsonNumber)
    requires
        n is PosInt || n is NegInt,
    ensures
        n is PosInt ==> string_coercion(Some(JsonValue::Number(n))) == Some(
            decimal_text(n->PosInt_0 as int),
        ),
        n is NegInt ==> string_coercion(Some(JsonValue::Number(n))) == Some(
            decimal_text(n->NegInt_0 as int),
        ),
{
    match n {
        JsonNumber::PosInt(k) => lemma_decimal_text_unquoted(k as int),
        JsonNumber::NegInt(k) => lemma_decimal_text_unquoted(k as int),
        _ => {},
    }
}

/// The four words that read as a boolean, character by character: `1` and
/// `true` give true, `0` and `false` give false, and no other string gives
/// anything.
pub proof fn lemma_boolean_words(s: String)
    ensures
        boolean_coercion(Some(JsonValue::String(s))) == if s@ == seq!['1'] || s@ == seq![
            't',
            'r',
            'u',
            'e',
        ] {
            Some(true)
        } else if s@ == seq!['0'] || s@ == seq!['f', 'a', 'l', 's', 'e'] {
            Some(false)
        } else {
            None
        },
{
    reveal_strlit("1");
    reveal_strlit("0");
    reveal_strlit("true");
    reveal_strlit("false");
    assert("1"@ =~= seq!['1']);
    assert("0"@ =~= seq!['0']);
    assert("true"@ =~= seq!['t', 'r', 'u', 'e']);
    assert("false"@ =~= seq!['f', 'a', 'l', 's', 'e']);
}

/// Reading an integer as a boolean gives whether it is not zero.
pub proof fn lemma_integer_reads_as_nonzero(n: JsonNumber)
    requires
        n is PosInt || n is NegInt,
    ensures
        n is PosInt ==> boolean_coercion(Some(JsonValue::Number(n))) == Some(n->PosInt_0 != 0),
        n is NegInt ==> boolean_coercion(Some(JsonValue::Number(n))) == Some(n->NegInt_0 != 0),
{
}

/// A string reads as an integer only if it is an optional sign followed by
/// one or more decimal digits: a text with anything else in it gives nothing.
pub proof fn lemma_integer_needs_digits(s: String)
    requires
        integer_coercion(Some(JsonValue::String(s))) is Some,
    ensures
        s@.len() > 0,
        s@[0] == '-' || s@[0] == '+' ==> s@.len() > 1 && all_digits(s@.skip(1)),
        !(s@[0] == '-' || s@[0] == '+') ==> all_digits(s@),
{
}

/// A null and a missing value read as nothing, whatever is asked of them.
pub proof fn lemma_null_reads_as_nothing()
    ensures
        string_coercion(None) is None,
        string_coercion(Some(JsonValue::Null)) is None,
        integer_coercion(None) is None,
        integer_coercion(Some(JsonValue::Null)) is None,
        boolean_coercion(None) is None,
        boolean_coercion(Some(JsonValue::Null)) is None,
        float_coercion(None) is None,
        float_coercion(Some(JsonValue::Null)) is None,
{
}

/// A float that a value reads as is well formed: a decimal text among the
/// results always writes a float.
pub proof fn lemma_float_reads_well_formed(v: Option<JsonValue>)
    ensures
        float_coercion(v) matches Some(FloatModel::Decimal(t)) ==> is_float_text(t),
{
}

/// Reads a value as text.
pub fn to_string_opt(v: Option<&JsonValue>) -> (r: Option<String>)
    ensures
        text_of(r) == string_coercion(pointee(v)),
{
    match v {
        None => None,
        Some(val) => match val {
            JsonValue::Null => None,
            JsonValue::String(s) => Some(s.clone()),
            _ => {
                let text = render(val);
                Some(String::from_str(trim_matches(text.as_str(), '"')))
            },
        },
    }
}

/// Reads a value as a signed 64-bit integer.
pub fn to_i64(v: Option<&JsonValue>) -> (r: Option<i64>)
    ensures
        r == integer_coercion(pointee(v)),
{
    match v {
        None => None,
        Some(val) => match val {
            JsonValue::Number(JsonNumber::PosInt(n)) => {
                let n: u64 = *n;
                if n <= 0x7fff_ffff_ffff_ffff {
                    Some(n as i64)
                } else {
                    let low: u64 = n - 0x8000_0000_0000_0000;
                    Some((low as i64) + i64::MIN)
                }
            },
            JsonValue::Number(JsonNumber::NegInt(n)) => Some(*n),
            JsonValue::String(s) => parse_i64(s.as_str()),
            _ => None,
        },
    }
}

/// Reads a value as a boolean.
pub fn to_bool(v: Option<&JsonValue>) -> (r: Option<bool>)
    ensures
        r == boolean_coercion(pointee(v)),
{
    match v {
        None => None,
        Some(val) => match val {
            JsonValue::Null => None,
            JsonValue::Bool(b) => Some(*b),
            JsonValue::String(s) => {
                if str_eq(s.as_str(), "true") || str_eq(s.as_str(), "1") {
                    Some(true)
                } else if str_eq(s.as_str(), "false") || str_eq(s.as_str(), "0") {
                    Some(false)
                } else {
                    None
                }
            },
            _ => match to_i64(Some(val)) {
                Some(n) => Some(n != 0),
                None => None,
            },
        },
    }
}

/// Reads a value as a float.
pub fn to_f64(v: Option<&JsonValue>) -> (r: Option<FloatValue>)
    ensures
        float_of(r) == float_coercion(pointee(v)),
{
    match v {
        None => None,
        Some(val) => match val {
            JsonValue::Number(JsonNumber::PosInt(n)) => Some(FloatValue::Unsigned(*n)),
            JsonValue::Number(JsonNumber::NegInt(n)) => Some(FloatValue::Signed(*n)),
            JsonValue::Number(JsonNumber::Float { bits, text }) => Some(FloatValue::Bits(*bits)),
            JsonValue::String(s) => {
                if writes_float(s.as_str()) {
                    Some(FloatValue::Decimal(s.clone()))
                } else {
                    None
                }
            },
            _ => None,
        },
    }
}

} // verus!

//! The compact text of a JSON value.
//!
//! Scalars are written by `serde_json`. Arrays and objects are framed here,
//! around the text of what they hold, so that a float can be written from the
//! rendering it carries.

use vstd::prelude::*;
use crate::json::{JsonNumber, JsonValue};
use crate::text::decimal_text;

verus! {

/// The lower-case hexadecimal digit for `d`, for `d` from 0 to 15.
pub open spec fn hex_char(d: int) -> char {
    if d < 10 {
        crate::text::digit_char(d)
    } else if d == 10 {
        'a'
    } else if d == 11 {
        'b'
    } else if d == 12 {
        'c'
    } else if d == 13 {
        'd'
    } else if d == 14 {
        'e'
    } else {
        'f'
    }
}

/// How one character stands inside a JSON string literal: a quote, a
/// backslash and the control characters below U+0020 are escaped, every other
/// character stands for itself.
pub open spec fn escaped_char(c: char) -> Seq<char> {
    if c == '"' {
        seq!['\\', '"']
    } else if c == '\\' {
        seq!['\\', '\\']
    } else if c == '\u{08}' {
        seq!['\\', 'b']
    } else if c == '\u{0c}' {
        seq!['\\', 'f']
    } else if c == '\n' {
        seq!['\\', 'n']
    } else if c == '\r' {
        seq!['\\', 'r']
    } else if c == '\t' {
        seq!['\\', 't']
    } else if (c as int) < 32 {
        seq!['\\', 'u', '0', '0', hex_char(c as int / 16), hex_char(c as int % 16)]
    } else {
        seq![c]
    }
}

/// The characters of `s`, each escaped as a JSON string literal needs it.
pub open spec fn escaped_text(s: Seq<char>) -> Seq<char>
    decreases s.len(),
{
    if s.len() == 0 {
        Seq::empty()
    } else {
        escaped_text(s.drop_last()) + escaped_char(s.last())
    }
}

/// The JSON string literal for `s`: its escaped characters between quotes.
pub open spec fn string_literal(s: Seq<char>) -> Seq<char> {
    seq!['"'] + escaped_text(s) + seq!['"']
}

/// The compact text of a JSON value, with no white space.
pub open spec fn canonical_text(v: JsonValue) -> Seq<char>
    decreases v,
{
    match v {
        JsonValue::Null => "null"@,
        JsonValue::Bool(b) => if b {
            "true"@
        } else {
            "false"@
        },
        JsonValue::Number(JsonNumber::PosInt(n)) => decimal_text(n as int),
        JsonValue::Number(JsonNumber::NegInt(n)) => decimal_text(n as int),
        JsonValue::Number(JsonNumber::Float { bits, text }) => text@,
        JsonValue::String(s) => string_literal(s@),
        JsonValue::Array(items) => "["@ + items_text(items@) + "]"@,
        JsonValue::Object(members) => "{"@ + members_text(members@) + "}"@,
    }
}

/// The texts of `items`, with a comma between one and the next.
pub open spec fn items_text(items: Seq<JsonValue>) -> Seq<char>
    decreases items,
{
    if items.len() == 0 {
        Seq::empty()
    } else if items.len() == 1 {
        canonical_text(items[0])
    } else {
        items_text(items.drop_last()) + ","@ + canonical_text(items.last())
    }
}

/// One member of an object: its name as a string literal, a colon, its value.
pub open spec fn member_text(m: (String, JsonValue)) -> Seq<char>
    decreases m,
{
    string_literal(m.0@) + ":"@ + canonical_text(m.1)
}

/// The texts of `members`, with a comma between one and the next.
pub open spec fn members_text(members: Seq<(String, JsonValue)>) -> Seq<char>
    decreases members,
{
    if members.len() == 0 {
        Seq::empty()
    } else if members.len() == 1 {
        member_text(members[0])
    } else {
        members_text(members.drop_last()) + ","@ + member_text(members.last())
    }
}

/// A value that has no parts and carries no rendering of its own.
pub open spec fn is_plain_scalar(v: JsonValue) -> bool {
    match v {
        JsonValue::Null => true,
        JsonValue::Bool(_) => true,
        JsonValue::Number(JsonNumber::PosInt(_)) => true,
        JsonValue::Number(JsonNumber::NegInt(_)) => true,
        JsonValue::String(_) => true,
        _ => false,
    }
}

/// `serde_json::Value`'s `to_string`, on a null, a boolean, an integer or a
/// string: the words `null`, `true` and `false`, the decimal text of an
/// integer, and a string as a JSON string literal.
#[verifier::external_body]
pub(crate) fn scalar_text(v: &JsonValue) -> (r: String)
    requires
        is_plain_scalar(*v),
    ensures
        r@ == canonical_text(*v),
{
    let outside = match v {
        JsonValue::Bool(b) => serde_json::Value::from(*b),
        JsonValue::Number(JsonNumber::PosInt(n)) => serde_json::Value::from(*n),
        JsonValue::Number(JsonNumber::NegInt(n)) => serde_json::Value::from(*n),
        JsonValue::String(s) => serde_json::Value::from(s.as_str()),
        _ => serde_json::Value::Null,
    };
    outside.to_string()
}

/// Writes the compact text of `v`.
pub fn render(v: &JsonValue) -> (r: String)
    ensures
        r@ == canonical_text(*v),
    decreases v,
{
    match v {
        JsonValue::Number(JsonNumber::Float { bits, text }) => text.clone(),
        JsonValue::Array(items) => {
            let mut out = String::from_str("[");
            let mut i: usize = 0;
            while i < items.len()
                invariant
                    i <= items.len(),
                    v is Array,
                    v->Array_0 == *items,
                    out@ == "["@ + items_text(items@.take(i as int)),
                decreases items.len() - i,
            {
                if i > 0 {
                    out.append(",");
                }
                let part = render(&items[i]);
                out.append(part.as_str());
                proof {
                    assert(items@.take(i + 1).drop_last() == items@.take(i as int));
                }
                i += 1;
            }
            proof {
                assert(items@.take(i as int) == items@);
            }
            out.append("]");
            out
        },
        JsonValue::Object(members) => {
            let mut out = String::from_str("{");
            let mut i: usize = 0;
            while i < members.len()
                invariant
                    i <= members.len(),
                    v is Object,
                    v->Object_0 == *members,
                    out@ == "{"@ + members_text(members@.take(i as int)),
                decreases members.len() - i,
            {
                if i > 0 {
                    out.append(",");
                }
                let name = scalar_text(&JsonValue::String(members[i].0.clone()));
                out.append(name.as_str());
                out.append(":");
                let part = render(&members[i].1);
                out.append(part.as_str());
                proof {
                    assert(members@.take(i + 1).drop_last() == members@.take(i as int));
                    assert(members@.take(i + 1).last() == members@[i as int]);
                    assert(member_text(members@[i as int]) == name@ + ":"@ + part@);
                    if i == 0 {
                        assert(members@.take(1)[0] == members@[0]);
                        assert(members_text(members@.take(0)) =~= Seq::<char>::empty());
                        assert(out@ =~= "{"@ + member_text(members@[0]));
                    } else {
                        assert(out@ =~= "{"@ + (members_text(members@.take(i as int)) + ","@
                            + member_text(members@[i as int])));
                    }
                }
                i += 1;
            }
            proof {
                assert(members@.take(i as int) == members@);
            }
            out.append("}");
            out
        },
        _ => scalar_text(v),
    }
}

} // verus!

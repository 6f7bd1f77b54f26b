//! What several endpoints share: the list inside an answer, and the label
//! that names a record.

use vstd::prelude::*;
use crate::json::{pointee, JsonValue};
use crate::render::{canonical_text, escaped_text, render, string_literal};
use crate::text::{strip_leading, strip_trailing, trim_matches, trimmed};

verus! {

/// The list that an answer carries: the items of the answer itself where it
/// is an array, else the items of the array under `key`. An answer of any
/// other shape carries nothing.
pub open spec fn envelope_items(data: JsonValue, key: Seq<char>) -> Seq<JsonValue> {
    if data is Array {
        data.items()
    } else {
        data.member_items(key)
    }
}

/// The label that names a record: the compact text of the value, or
/// `fallback` where there is no value, without the quotes at either end.
pub open spec fn label_of(v: Option<JsonValue>, fallback: Seq<char>) -> Seq<char> {
    trimmed(
        match v {
            Some(x) => canonical_text(x),
            None => fallback,
        },
        '"',
    )
}

/// Finds the list that an answer carries.
pub fn envelope<'a>(data: &'a JsonValue, key: &str) -> (r: Option<&'a Vec<JsonValue>>)
    ensures
        r is Some ==> r.unwrap()@ == envelope_items(*data, key@),
        r is None ==> envelope_items(*data, key@).len() == 0,
{
    match data {
        JsonValue::Array(items) => Some(items),
        _ => match data.get(key) {
            Some(inner) => inner.as_array(),
            None => None,
        },
    }
}

/// Writes the label that names a record.
pub fn label(v: Option<&JsonValue>, fallback: &str) -> (r: String)
    ensures
        r@ == label_of(pointee(v), fallback@),
{
    match v {
        Some(x) => {
            let text = render(x);
            String::from_str(trim_matches(text.as_str(), '"'))
        },
        None => String::from_str(trim_matches(fallback, '"')),
    }
}

/// A text that a JSON string literal holds as it stands: no quote, no
/// backslash and no control character is in it.
pub open spec fn is_plain(s: Seq<char>) -> bool {
    forall|i: int|
        0 <= i < s.len() ==> (#[trigger] s[i]) != '"' && s[i] != '\\' && (s[i] as int) >= 32
}

/// Escaping changes nothing in a plain text.
pub proof fn lemma_plain_text_escapes_to_itself(s: Seq<char>)
    requires
        is_plain(s),
    ensures
        escaped_text(s) == s,
    decreases s.len(),
{
    if s.len() > 0 {
        let front = s.drop_last();
        assert(is_plain(front)) by {
            assert forall|i: int| 0 <= i < front.len() implies (#[trigger] front[i]) != '"'
                && front[i] != '\\' && (front[i] as int) >= 32 by {
                assert(front[i] == s[i]);
            }
        }
        lemma_plain_text_escapes_to_itself(front);
        assert(s.last() == s[s.len() - 1]);
        assert(escaped_text(s) =~= s);
    } else {
        assert(escaped_text(s) =~= s);
    }
}

/// A record that a plain string names is labelled by that very string.
pub proof fn lemma_plain_string_labels_itself(s: String, fallback: Seq<char>)
    requires
        is_plain(s@),
    ensures
        label_of(Some(JsonValue::String(s)), fallback) == s@,
{
    lemma_plain_text_escapes_to_itself(s@);
    reveal_with_fuel(strip_leading, 3);
    reveal_with_fuel(strip_trailing, 3);
    let quote = seq!['"'];
    let literal = string_literal(s@);
    assert(literal[0] == '"');
    assert(literal == quote + s@ + quote);
    assert(literal.skip(1) =~= s@ + quote);
    if s@.len() == 0 {
        assert(literal.skip(1).skip(1) =~= Seq::<char>::empty());
        assert(strip_leading(literal.skip(1), '"') == strip_leading(literal.skip(1).skip(1), '"'));
        assert(strip_leading(literal, '"') =~= s@);
    } else {
        assert((s@ + quote)[0] == s@[0]);
        assert(strip_leading(literal, '"') == s@ + quote);
        assert((s@ + quote).drop_last() =~= s@);
        assert(s@.last() == s@[s@.len() - 1]);
        assert(strip_trailing(s@ + quote, '"') == strip_trailing(s@, '"'));
    }
}

/// A list is read the same whether it comes bare or under its key: an answer
/// that is an array, and an answer that is an object holding under `key` an
/// array of the same items, carry the same items.
pub proof fn lemma_envelope_forms_agree(bare: JsonValue, wrapped: JsonValue, key: Seq<char>)
    requires
        bare is Array,
        wrapped is Object,
        wrapped.member(key) is Some,
        wrapped.member(key).unwrap() is Array,
        wrapped.member(key).unwrap().items() == bare.items(),
    ensures
        envelope_items(bare, key) == envelope_items(wrapped, key),
{
}

/// A record whose object has no value to name it, and no fallback but the
/// empty text, gets the empty label.
pub proof fn lemma_missing_label_is_empty()
    ensures
        label_of(None, ""@) == Seq::<char>::empty(),
{
    reveal_strlit("");
    assert(""@ =~= Seq::<char>::empty());
}

} // verus!

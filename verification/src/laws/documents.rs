//! What is found in a document, told by its fields alone.

use vstd::prelude::*;

use crate::json::{
    boolean_of, either_of, first_field, items_of, signed_of, text_of, unsigned_of, Json, JsonView,
};
use crate::opencode_event_mapper::{first_non_empty_text, first_text, first_unsigned};

verus! {

/// Whether a document holds a text under `key`.
pub open spec fn has_text(value: JsonView, key: Seq<char>) -> bool {
    value.field(key) matches Some(item) && item is Text
}

/// Whether a document holds an integer under `key` that a `u64` can hold.
pub open spec fn has_count(value: JsonView, key: Seq<char>) -> bool {
    value.field(key) matches Some(JsonView::Integer(n)) && 0 <= n <= u64::MAX
}

/// Whether `answer` is the text under the first of `keys` that holds a text, or none where no key
/// does.
pub open spec fn tells(value: JsonView, keys: Seq<&str>, answer: Option<Seq<char>>) -> bool {
    match answer {
        Some(text) => exists|i: int|
            {
                &&& 0 <= i < keys.len()
                &&& value.field((#[trigger] keys[i])@) == Some(JsonView::Text(text))
                &&& forall|j: int| 0 <= j < i ==> !has_text(value, (#[trigger] keys[j])@)
            },
        None => forall|j: int| 0 <= j < keys.len() ==> !has_text(value, (#[trigger] keys[j])@),
    }
}

/// Whether `answer` is the `u64` under the first of `keys` that holds one, or none where no key
/// does.
pub open spec fn counts(value: JsonView, keys: Seq<&str>, answer: Option<u64>) -> bool {
    match answer {
        Some(n) => exists|i: int|
            {
                &&& 0 <= i < keys.len()
                &&& value.field((#[trigger] keys[i])@) == Some(JsonView::Integer(n as int))
                &&& forall|j: int| 0 <= j < i ==> !has_count(value, (#[trigger] keys[j])@)
            },
        None => forall|j: int| 0 <= j < keys.len() ==> !has_count(value, (#[trigger] keys[j])@),
    }
}

/// Whether `answer` is what stands under the first of `keys` that is present, or none where no key
/// is.
pub open spec fn finds(value: JsonView, keys: Seq<&str>, answer: Option<JsonView>) -> bool {
    match answer {
        Some(item) => exists|i: int|
            {
                &&& 0 <= i < keys.len()
                &&& value.field((#[trigger] keys[i])@) == Some(item)
                &&& forall|j: int| 0 <= j < i ==> value.field((#[trigger] keys[j])@) is None
            },
        None => forall|j: int| 0 <= j < keys.len() ==> value.field((#[trigger] keys[j])@) is None,
    }
}

/// The value under a key is that of the first field with the key.
pub proof fn a_field_is_found_by_its_key(
    fields: Seq<(Seq<char>, JsonView)>,
    key: Seq<char>,
    i: int,
)
    requires
        0 <= i < fields.len(),
        fields[i].0 == key,
        forall|j: int| 0 <= j < i ==> (#[trigger] fields[j]).0 != key,
    ensures
        JsonView::Object(fields).field(key) == Some(fields[i].1),
    decreases fields.len(),
{
    if i > 0 {
        let rest = fields.drop_first();
        assert(fields[0].0 != key);
        assert forall|j: int| 0 <= j < i - 1 implies (#[trigger] rest[j]).0 != key by {
            assert(rest[j] == fields[j + 1]);
        }
        a_field_is_found_by_its_key(rest, key, i - 1);
        assert(first_field(fields, key) == first_field(rest, key));
    }
}

/// Nothing is found under a key that no field has, nor in a document that is no object.
pub proof fn an_absent_field_is_not_found(value: JsonView, key: Seq<char>)
    requires
        value matches JsonView::Object(fields) ==> forall|i: int|
            0 <= i < fields.len() ==> (#[trigger] fields[i]).0 != key,
    ensures
        value.field(key) is None,
    decreases value,
{
    if let JsonView::Object(fields) = value {
        lemma_no_field(fields, key);
    }
}

proof fn lemma_no_field(fields: Seq<(Seq<char>, JsonView)>, key: Seq<char>)
    requires
        forall|i: int| 0 <= i < fields.len() ==> (#[trigger] fields[i]).0 != key,
    ensures
        first_field(fields, key) is None,
    decreases fields.len(),
{
    if fields.len() > 0 {
        let rest = fields.drop_first();
        assert(fields[0].0 != key);
        assert forall|i: int| 0 <= i < rest.len() implies (#[trigger] rest[i]).0 != key by {
            assert(rest[i] == fields[i + 1]);
        }
        lemma_no_field(rest, key);
    }
}

/// A document is one thing: a text gives its characters, a truth value itself, an array its items,
/// and none of them anything else.
pub proof fn a_document_is_one_thing(text: Seq<char>, flag: bool, items: Seq<JsonView>)
    ensures
        JsonView::Text(text).text() == Some(text),
        JsonView::Text(text).boolean() is None,
        JsonView::Text(text).unsigned() is None,
        JsonView::Text(text).signed() is None,
        JsonView::Text(text).items() is None,
        JsonView::Bool(flag).boolean() == Some(flag),
        JsonView::Bool(flag).text() is None,
        JsonView::Bool(flag).unsigned() is None,
        JsonView::Bool(flag).signed() is None,
        JsonView::Bool(flag).items() is None,
        JsonView::Array(items).items() == Some(items),
        JsonView::Array(items).text() is None,
        JsonView::Array(items).boolean() is None,
        JsonView::Array(items).unsigned() is None,
        JsonView::Array(items).signed() is None,
{
}

/// A document that is no text, truth value, integer or array gives none.
pub proof fn other_documents_give_nothing(value: JsonView)
    requires
        value is Null || value is Decimal || value is Object,
    ensures
        value.text() is None,
        value.boolean() is None,
        value.unsigned() is None,
        value.signed() is None,
        value.items() is None,
{
}

/// An integer is given exactly where the type can hold it, and then by its value.
pub proof fn an_integer_is_given_by_its_value(n: int)
    ensures
        JsonView::Integer(n).unsigned() is Some <==> 0 <= n < 0x1_0000_0000_0000_0000,
        JsonView::Integer(n).unsigned() matches Some(m) ==> m as int == n,
        JsonView::Integer(n).signed() is Some <==> -0x8000_0000_0000_0000 <= n
            < 0x8000_0000_0000_0000,
        JsonView::Integer(n).signed() matches Some(m) ==> m as int == n,
        JsonView::Integer(n).text() is None,
        JsonView::Integer(n).boolean() is None,
        JsonView::Integer(n).items() is None,
{
}

/// What is not there gives nothing, and what is there gives what it is.
pub proof fn an_optional_document_gives_what_it_is(value: JsonView)
    ensures
        text_of(Some(value)) == value.text(),
        boolean_of(Some(value)) == value.boolean(),
        unsigned_of(Some(value)) == value.unsigned(),
        signed_of(Some(value)) == value.signed(),
        items_of(Some(value)) == value.items(),
        text_of(None) is None,
        boolean_of(None) is None,
        unsigned_of(None) is None,
        signed_of(None) is None,
        items_of(None) is None,
{
}

/// The text under a key is found exactly where the document holds a text there.
pub proof fn a_text_is_found_under_its_key(value: JsonView, key: Seq<char>)
    ensures
        value.text_at(key) is Some <==> has_text(value, key),
        value.text_at(key) matches Some(text) ==> value.field(key) == Some(JsonView::Text(text)),
{
}

/// Of two keys the second one counts only where the first one is absent, whatever stands under it.
pub proof fn a_present_key_hides_the_next(value: JsonView, first: &str, second: &str)
    ensures
        finds(value, seq![first, second], value.field_or(first@, second@)),
{
    let keys = seq![first, second];
    assert(keys[0] == first && keys[1] == second);
    if value.field(first@) is None && value.field(second@) is Some {
        assert(value.field(keys[1]@) == value.field_or(first@, second@));
    }
}

pub(super) proof fn lemma_found_of_two(
    value: JsonView,
    first: &str,
    second: &str,
    answer: Option<JsonView>,
)
    requires
        finds(value, seq![first, second], answer),
    ensures
        value.field_or(first@, second@) == answer,
{
    let keys = seq![first, second];
    assert(keys[0] == first && keys[1] == second);
    if answer is Some && value.field(first@) is Some {
        assert(value.field(keys[0]@) is Some);
    }
}

pub(super) proof fn lemma_found_of_three(
    value: JsonView,
    first: &str,
    second: &str,
    third: &str,
    answer: Option<JsonView>,
)
    requires
        finds(value, seq![first, second, third], answer),
    ensures
        either_of(value.field_or(first@, second@), value.field(third@)) == answer,
{
    let keys = seq![first, second, third];
    assert(keys[0] == first && keys[1] == second && keys[2] == third);
    assert(value.field(keys[0]@) == value.field(first@));
    assert(value.field(keys[1]@) == value.field(second@));
}

/// Of several keys the first one that holds a text counts; one that holds something else does not.
pub proof fn the_first_text_counts(value: JsonView, keys: Seq<&str>, answer: Option<Seq<char>>)
    ensures
        tells(value, keys, answer) <==> first_text(value, keys) == answer,
    decreases keys.len(),
{
    if keys.len() > 0 {
        let rest = keys.drop_first();
        the_first_text_counts(value, rest, answer);
        assert(keys[0] == keys.first());
        assert forall|j: int| 0 <= j < rest.len() implies rest[j] == keys[j + 1] by {}
        if has_text(value, keys[0]@) {
            let text = value.field(keys[0]@)->0->Text_0;
            assert(first_text(value, keys) == Some(text));
            if answer == Some(text) {
                assert(tells(value, keys, answer));
            }
        } else {
            assert(first_text(value, keys) == first_text(value, rest));
            if tells(value, keys, answer) {
                if let Some(text) = answer {
                    let i = choose|i: int|
                        {
                            &&& 0 <= i < keys.len()
                            &&& value.field((#[trigger] keys[i])@) == Some(JsonView::Text(text))
                            &&& forall|j: int|
                                0 <= j < i ==> !has_text(value, (#[trigger] keys[j])@)
                        };
                    assert(rest[i - 1] == keys[i]);
                    assert forall|j: int| 0 <= j < i - 1 implies !has_text(
                        value,
                        (#[trigger] rest[j])@,
                    ) by {
                        assert(rest[j] == keys[j + 1]);
                    }
                    assert(tells(value, rest, answer));
                } else {
                    assert forall|j: int| 0 <= j < rest.len() implies !has_text(
                        value,
                        (#[trigger] rest[j])@,
                    ) by {
                        assert(rest[j] == keys[j + 1]);
                    }
                }
            }
            if tells(value, rest, answer) {
                if let Some(text) = answer {
                    let i = choose|i: int|
                        {
                            &&& 0 <= i < rest.len()
                            &&& value.field((#[trigger] rest[i])@) == Some(JsonView::Text(text))
                            &&& forall|j: int|
                                0 <= j < i ==> !has_text(value, (#[trigger] rest[j])@)
                        };
                    assert(keys[i + 1] == rest[i]);
                    assert forall|j: int| 0 <= j < i + 1 implies !has_text(
                        value,
                        (#[trigger] keys[j])@,
                    ) by {
                        if j > 0 {
                            assert(keys[j] == rest[j - 1]);
                        }
                    }
                    assert(tells(value, keys, answer));
                } else {
                    assert forall|j: int| 0 <= j < keys.len() implies !has_text(
                        value,
                        (#[trigger] keys[j])@,
                    ) by {
                        if j > 0 {
                            assert(keys[j] == rest[j - 1]);
                        }
                    }
                }
            }
        }
    }
}

/// The text that counts is taken unless it is empty; a later key does not take the place of an
/// empty text.
pub proof fn an_empty_text_is_not_taken(value: JsonView, keys: Seq<&str>, text: Seq<char>)
    ensures
        tells(value, keys, Some(text)) ==> first_non_empty_text(value, keys) == if text.len() == 0 {
            None
        } else {
            Some(text)
        },
        tells(value, keys, None) ==> first_non_empty_text(value, keys) is None,
{
    the_first_text_counts(value, keys, Some(text));
    the_first_text_counts(value, keys, None);
}

/// Of several keys the first one that holds a `u64` counts; one that holds something else does not.
pub proof fn the_first_count_counts(value: JsonView, keys: Seq<&str>, answer: Option<u64>)
    requires
        counts(value, keys, answer),
    ensures
        first_unsigned(value, keys) == answer,
    decreases keys.len(),
{
    if keys.len() > 0 {
        let rest = keys.drop_first();
        assert(keys[0] == keys.first());
        if !has_count(value, keys[0]@) {
            if let Some(n) = answer {
                let i = choose|i: int|
                    {
                        &&& 0 <= i < keys.len()
                        &&& value.field((#[trigger] keys[i])@) == Some(JsonView::Integer(n as int))
                        &&& forall|j: int| 0 <= j < i ==> !has_count(value, (#[trigger] keys[j])@)
                    };
                assert(rest[i - 1] == keys[i]);
                assert forall|j: int| 0 <= j < i - 1 implies !has_count(
                    value,
                    (#[trigger] rest[j])@,
                ) by {
                    assert(rest[j] == keys[j + 1]);
                }
            } else {
                assert forall|j: int| 0 <= j < rest.len() implies !has_count(
                    value,
                    (#[trigger] rest[j])@,
                ) by {
                    assert(rest[j] == keys[j + 1]);
                }
            }
            assert(counts(value, rest, answer));
            the_first_count_counts(value, rest, answer);
            assert(first_unsigned(value, keys) == first_unsigned(value, rest));
        }
    }
}

/// The contents of a document are those of its parts, each in its place.
pub proof fn a_document_is_seen_whole(value: Json)
    ensures
        match value {
            Json::Null => value@ == JsonView::Null,
            Json::Bool(b) => value@ == JsonView::Bool(b),
            Json::Integer(n) => value@ == JsonView::Integer(n as int),
            Json::Decimal(s) => value@ == JsonView::Decimal(s@),
            Json::Text(s) => value@ == JsonView::Text(s@),
            Json::Array(items) => value@ matches JsonView::Array(views) && views.len()
                == items@.len() && forall|i: int|
                0 <= i < items@.len() ==> #[trigger] views[i] == items@[i]@,
            Json::Object(fields) => value@ matches JsonView::Object(views) && views.len()
                == fields@.len() && forall|i: int|
                0 <= i < fields@.len() ==> #[trigger] views[i] == (fields@[i].0@, fields@[i].1@),
        },
{
}

} // verus!

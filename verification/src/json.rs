//! JSON documents as plain values, and how a text is read into one.

use vstd::prelude::*;

verus! {

/// A JSON document.
///
/// An integer is held by its value and any other number by its decimal text. Where an object
/// holds several fields under one key, the first one counts.
#[derive(Debug)]
pub enum Json {
    Null,
    Bool(bool),
    Integer(i128),
    Decimal(String),
    Text(String),
    Array(Vec<Json>),
    Object(Vec<(String, Json)>),
}

/// The mathematical contents of a [`Json`] document.
#[verifier::ext_equal]
pub enum JsonView {
    Null,
    Bool(bool),
    Integer(int),
    Decimal(Seq<char>),
    Text(Seq<char>),
    Array(Seq<JsonView>),
    Object(Seq<(Seq<char>, JsonView)>),
}

/// The contents of `value`, with every text, array and object replaced by its sequence.
pub open spec fn json_view(value: Json) -> JsonView
    decreases value,
{
    match value {
        Json::Null => JsonView::Null,
        Json::Bool(b) => JsonView::Bool(b),
        Json::Integer(n) => JsonView::Integer(n as int),
        Json::Decimal(s) => JsonView::Decimal(s@),
        Json::Text(s) => JsonView::Text(s@),
        Json::Array(items) => JsonView::Array(
            Seq::new(
                items@.len(),
                |i: int|
                    if 0 <= i < items@.len() {
                        json_view(items@[i])
                    } else {
                        JsonView::Null
                    },
            ),
        ),
        Json::Object(fields) => JsonView::Object(
            Seq::new(
                fields@.len(),
                |i: int|
                    if 0 <= i < fields@.len() {
                        (fields@[i].0@, json_view(fields@[i].1))
                    } else {
                        (Seq::empty(), JsonView::Null)
                    },
            ),
        ),
    }
}

impl View for Json {
    type V = JsonView;

    open spec fn view(&self) -> JsonView {
        json_view(*self)
    }
}

impl DeepView for Json {
    type V = JsonView;

    open spec fn deep_view(&self) -> JsonView {
        json_view(*self)
    }
}

/// The value of the first field with the key `key`.
pub open spec fn first_field(fields: Seq<(Seq<char>, JsonView)>, key: Seq<char>) -> Option<JsonView>
    decreases fields.len(),
{
    if fields.len() == 0 {
        None
    } else if fields.first().0 == key {
        Some(fields.first().1)
    } else {
        first_field(fields.drop_first(), key)
    }
}

/// `first`, or `second` where there is no `first`.
pub open spec fn either_of<T>(first: Option<T>, second: Option<T>) -> Option<T> {
    match first {
        Some(value) => Some(value),
        None => second,
    }
}

impl JsonView {
    /// The value under `key`; a document that is no object has none.
    pub open spec fn field(self, key: Seq<char>) -> Option<JsonView> {
        match self {
            JsonView::Object(fields) => first_field(fields, key),
            _ => None,
        }
    }

    /// The value under `first`, or, where that key is absent, the one under `second`.
    pub open spec fn field_or(self, first: Seq<char>, second: Seq<char>) -> Option<JsonView> {
        either_of(self.field(first), self.field(second))
    }

    /// The text that the document is.
    pub open spec fn text(self) -> Option<Seq<char>> {
        match self {
            JsonView::Text(s) => Some(s),
            _ => None,
        }
    }

    /// The truth value that the document is.
    pub open spec fn boolean(self) -> Option<bool> {
        match self {
            JsonView::Bool(b) => Some(b),
            _ => None,
        }
    }

    /// The integer that the document is, if a `u64` can hold it.
    pub open spec fn unsigned(self) -> Option<u64> {
        match self {
            JsonView::Integer(n) => if 0 <= n <= u64::MAX {
                Some(n as u64)
            } else {
                None
            },
            _ => None,
        }
    }

    /// The integer that the document is, if an `i64` can hold it.
    pub open spec fn signed(self) -> Option<i64> {
        match self {
            JsonView::Integer(n) => if i64::MIN <= n <= i64::MAX {
                Some(n as i64)
            } else {
                None
            },
            _ => None,
        }
    }

    /// The items of the array that the document is.
    pub open spec fn items(self) -> Option<Seq<JsonView>> {
        match self {
            JsonView::Array(items) => Some(items),
            _ => None,
        }
    }

    /// The text under `key`.
    pub open spec fn text_at(self, key: Seq<char>) -> Option<Seq<char>> {
        text_of(self.field(key))
    }
}

/// The text that an optional document is.
pub open spec fn text_of(value: Option<JsonView>) -> Option<Seq<char>> {
    match value {
        Some(value) => value.text(),
        None => None,
    }
}

/// The truth value that an optional document is.
pub open spec fn boolean_of(value: Option<JsonView>) -> Option<bool> {
    match value {
        Some(value) => value.boolean(),
        None => None,
    }
}

/// The `u64` that an optional document is.
pub open spec fn unsigned_of(value: Option<JsonView>) -> Option<u64> {
    match value {
        Some(value) => value.unsigned(),
        None => None,
    }
}

/// The `i64` that an optional document is.
pub open spec fn signed_of(value: Option<JsonView>) -> Option<i64> {
    match value {
        Some(value) => value.signed(),
        None => None,
    }
}

/// The items of the array that an optional document is.
pub open spec fn items_of(value: Option<JsonView>) -> Option<Seq<JsonView>> {
    match value {
        Some(value) => value.items(),
        None => None,
    }
}

/// The value of `option`, or `default` where there is none.
pub open spec fn value_or<T>(option: Option<T>, default: T) -> T {
    match option {
        Some(value) => value,
        None => default,
    }
}

impl Json {
    /// The value under `key`, as `Value::get` finds it.
    pub fn get(&self, key: &str) -> (value: Option<&Json>)
        ensures
            value.deep_view() == self@.field(key@),
    {
        match self {
            Json::Object(fields) => {
                let ghost views = self@->Object_0;
                proof {
                    assert(views.skip(0) =~= views);
                }
                for i in 0..fields.len()
                    invariant
                        *self == Json::Object(*fields),
                        views == self@->Object_0,
                        self@.field(key@) == first_field(views.skip(i as int), key@),
                {
                    proof {
                        assert(views.skip(i as int).drop_first() =~= views.skip(i + 1));
                        assert(views.skip(i as int).first() == (
                            fields@[i as int].0@,
                            fields@[i as int].1@,
                        ));
                    }
                    if fields[i].0.as_str().eq(key) {
                        return Some(&fields[i].1);
                    }
                }
                None
            },
            _ => None,
        }
    }

    /// The value under `first`, or, where that key is absent, the one under `second`.
    pub fn get_or(&self, first: &str, second: &str) -> (value: Option<&Json>)
        ensures
            value.deep_view() == self@.field_or(first@, second@),
    {
        match self.get(first) {
            Some(value) => Some(value),
            None => self.get(second),
        }
    }

    /// The text that the document is, if it is one.
    pub fn as_str(&self) -> (text: Option<&str>)
        ensures
            text.deep_view() == self@.text(),
    {
        match self {
            Json::Text(s) => Some(s.as_str()),
            _ => None,
        }
    }

    /// The truth value that the document is, if it is one.
    pub fn as_bool(&self) -> (b: Option<bool>)
        ensures
            b == self@.boolean(),
    {
        match self {
            Json::Bool(b) => Some(*b),
            _ => None,
        }
    }

    /// The integer that the document is, if a `u64` can hold it.
    pub fn as_u64(&self) -> (n: Option<u64>)
        ensures
            n == self@.unsigned(),
    {
        match self {
            Json::Integer(n) => if 0 <= *n && *n <= u64::MAX as i128 {
                Some(*n as u64)
            } else {
                None
            },
            _ => None,
        }
    }

    /// The integer that the document is, if an `i64` can hold it.
    pub fn as_i64(&self) -> (n: Option<i64>)
        ensures
            n == self@.signed(),
    {
        match self {
            Json::Integer(n) => if i64::MIN as i128 <= *n && *n <= i64::MAX as i128 {
                Some(*n as i64)
            } else {
                None
            },
            _ => None,
        }
    }

    /// The items of the array that the document is, if it is one.
    pub fn as_array(&self) -> (items: Option<&Vec<Json>>)
        ensures
            items.deep_view() == self@.items(),
    {
        match self {
            Json::Array(items) => {
                assert(items.deep_view() =~= self@->Array_0);
                Some(items)
            },
            _ => None,
        }
    }

    /// Whether the document is an object.
    pub fn is_object(&self) -> (b: bool)
        ensures
            b == self@ is Object,
    {
        match self {
            Json::Object(_) => true,
            _ => false,
        }
    }
}

impl Clone for Json {
    fn clone(&self) -> (copy: Json)
        ensures
            copy@ == self@,
        decreases self,
    {
        match self {
            Json::Null => Json::Null,
            Json::Bool(b) => Json::Bool(*b),
            Json::Integer(n) => Json::Integer(*n),
            Json::Decimal(s) => Json::Decimal(s.clone()),
            Json::Text(s) => Json::Text(s.clone()),
            Json::Array(items) => {
                let mut copies: Vec<Json> = Vec::new();
                for i in 0..items.len()
                    invariant
                        self == Json::Array(*items),
                        copies@.len() == i,
                        forall|j: int| 0 <= j < i ==> (#[trigger] copies@[j])@ == items@[j]@,
                {
                    assert(decreases_to!(*self => self->Array_0@[i as int]));
                    copies.push(items[i].clone());
                }
                let copy = Json::Array(copies);
                assert(copy@->Array_0 =~= self@->Array_0) by {
                    assert forall|j: int| 0 <= j < items@.len() implies copy@->Array_0[j]
                        == self@->Array_0[j] by {
                        assert(copies@[j]@ == items@[j]@);
                    }
                }
                copy
            },
            Json::Object(fields) => {
                let mut copies: Vec<(String, Json)> = Vec::new();
                for i in 0..fields.len()
                    invariant
                        self == Json::Object(*fields),
                        copies@.len() == i,
                        forall|j: int|
                            0 <= j < i ==> (#[trigger] copies@[j]).0@ == fields@[j].0@
                                && copies@[j].1@ == fields@[j].1@,
                {
                    assert(decreases_to!(*self => self->Object_0@[i as int].1));
                    copies.push((fields[i].0.clone(), fields[i].1.clone()));
                }
                let copy = Json::Object(copies);
                assert(copy@->Object_0 =~= self@->Object_0) by {
                    assert forall|j: int| 0 <= j < fields@.len() implies copy@->Object_0[j]
                        == self@->Object_0[j] by {
                        assert(copies@[j].0@ == fields@[j].0@);
                    }
                }
                copy
            },
        }
    }
}

/// A document as `serde_json` holds it.
#[verifier::external_type_specification]
#[verifier::external_body]
pub struct ExValue(serde_json::Value);

/// Why `serde_json` refused a text.
#[verifier::external_type_specification]
#[verifier::external_body]
pub struct ExJsonError(serde_json::Error);

/// What a `serde_json::Value` holds.
pub uninterp spec fn value_contents(value: serde_json::Value) -> JsonView;

/// What `serde_json::from_str` reads in `text`, if that is not empty; nothing where it refuses the
/// text.
pub uninterp spec fn text_reading(text: Seq<char>) -> Option<JsonView>;

/// What the `Display` of a `serde_json::Error` writes.
pub uninterp spec fn error_text(error: serde_json::Error) -> Seq<char>;

/// What `serde_json::from_slice` reads in `bytes`, if there are any, or what the error says with
/// which it refuses them.
pub uninterp spec fn bytes_reading(bytes: Seq<u8>) -> Result<JsonView, Seq<char>>;

/// The document that makes up the whole of `text`, if it is JSON. The empty text is not.
pub open spec fn document_in_text(text: Seq<char>) -> Option<JsonView> {
    if text.len() == 0 {
        None
    } else {
        text_reading(text)
    }
}

/// The contents of what `serde_json` has read, or what its error says.
pub open spec fn loaded(result: Result<serde_json::Value, serde_json::Error>) -> Result<
    JsonView,
    Seq<char>,
> {
    match result {
        Ok(value) => Ok(value_contents(value)),
        Err(error) => Err(error_text(error)),
    }
}

/// The document that makes up all of `bytes`, or, if they are no JSON, why. No bytes are not.
pub open spec fn document_in_bytes(bytes: Seq<u8>) -> Result<JsonView, Seq<char>> {
    if bytes.len() == 0 {
        Err("EOF while parsing a value at line 1 column 0"@)
    } else {
        bytes_reading(bytes)
    }
}

/// `serde_json::from_str` reads one document that makes up the whole text, or refuses the text.
/// The empty text it refuses.
#[verifier::external_body]
fn value_from_str(text: &str) -> (result: Result<serde_json::Value, serde_json::Error>)
    ensures
        text@.len() == 0 ==> result is Err,
        text@.len() > 0 ==> match result {
            Ok(value) => text_reading(text@) == Some(value_contents(value)),
            Err(_) => text_reading(text@) is None,
        },
{
    serde_json::from_str(text)
}

/// `serde_json::from_slice` reads one document that makes up all the bytes, or refuses them with
/// an error whose text depends on the bytes alone. No bytes it refuses as an end of input at the
/// first line.
#[verifier::external_body]
fn value_from_slice(bytes: &[u8]) -> (result: Result<serde_json::Value, serde_json::Error>)
    ensures
        bytes@.len() == 0 ==> loaded(result) == document_in_bytes(bytes@),
        bytes@.len() > 0 ==> loaded(result) == bytes_reading(bytes@),
{
    serde_json::from_slice(bytes)
}

/// Moves what a `serde_json::Value` holds, variant by variant, into a [`Json`]. A number that
/// `Number::as_i128` gives as an integer is kept as one, any other by the text that `Number`
/// displays.
#[verifier::external_body]
fn json_from_value(value: serde_json::Value) -> (json: Json)
    ensures
        json@ == value_contents(value),
{
    match value {
        serde_json::Value::Null => Json::Null,
        serde_json::Value::Bool(b) => Json::Bool(b),
        serde_json::Value::Number(n) => match n.as_i128() {
            Some(i) => Json::Integer(i),
            None => Json::Decimal(n.to_string()),
        },
        serde_json::Value::String(s) => Json::Text(s),
        serde_json::Value::Array(items) => {
            Json::Array(items.into_iter().map(json_from_value).collect())
        },
        serde_json::Value::Object(fields) => {
            Json::Object(fields.into_iter().map(|(k, v)| (k, json_from_value(v))).collect())
        },
    }
}

/// The `Display` of a `serde_json::Error` writes what was wrong, and where.
#[verifier::external_body]
pub(crate) fn json_error_text(error: &serde_json::Error) -> (text: String)
    ensures
        text@ == error_text(*error),
{
    error.to_string()
}

/// Takes over a document from `serde_json`.
pub fn read_value(value: serde_json::Value) -> (json: Json)
    ensures
        json@ == value_contents(value),
{
    json_from_value(value)
}

/// Reads a JSON text.
pub fn read_text(text: &str) -> (json: Option<Json>)
    ensures
        json.deep_view() == document_in_text(text@),
{
    match value_from_str(text) {
        Ok(value) => Some(json_from_value(value)),
        Err(_) => None,
    }
}

/// The contents of a document or of the error with which it was refused.
pub open spec fn reading_view(result: Result<Json, serde_json::Error>) -> Result<
    JsonView,
    Seq<char>,
> {
    match result {
        Ok(json) => Ok(json@),
        Err(error) => Err(error_text(error)),
    }
}

/// Reads JSON bytes, or tells why they are none.
pub fn read_bytes(bytes: &[u8]) -> (result: Result<Json, serde_json::Error>)
    ensures
        reading_view(result) == document_in_bytes(bytes@),
{
    match value_from_slice(bytes) {
        Ok(value) => Ok(json_from_value(value)),
        Err(error) => Err(error),
    }
}

} // verus!

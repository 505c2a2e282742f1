//! JSON, one level at a time.

use crate::text::{same, texts};
use vstd::prelude::*;
use vstd::string::*;

verus! {

/// A JSON value. What a list or an object holds is left as JSON text.
#[derive(Debug, PartialEq, Eq)]
pub enum Json {
    Null,
    Flag(bool),
    /// The number, where it is a whole one that fits.
    Number(Option<u64>),
    Text(String),
    List(Vec<String>),
    Object(Vec<(String, String)>),
}

/// What a JSON value holds.
pub ghost enum JsonView {
    Null,
    Flag(bool),
    Number(Option<u64>),
    Text(Seq<char>),
    List(Seq<Seq<char>>),
    Object(Seq<(Seq<char>, Seq<char>)>),
}

pub open spec fn pair_texts(pairs: Seq<(String, String)>) -> Seq<(Seq<char>, Seq<char>)> {
    pairs.map_values(|pair: (String, String)| (pair.0@, pair.1@))
}

impl View for Json {
    type V = JsonView;

    open spec fn view(&self) -> JsonView {
        match *self {
            Json::Null => JsonView::Null,
            Json::Flag(on) => JsonView::Flag(on),
            Json::Number(n) => JsonView::Number(n),
            Json::Text(text) => JsonView::Text(text@),
            Json::List(items) => JsonView::List(texts(items@)),
            Json::Object(fields) => JsonView::Object(pair_texts(fields@)),
        }
    }
}

/// What a parse gave.
pub open spec fn seen_json(value: Option<Json>) -> Option<JsonView> {
    match value {
        Some(value) => Some(value@),
        None => None,
    }
}

/// The value that `serde_json` reads a text as, down to one level; `None` where it
/// refuses the text.
pub uninterp spec fn parsed_json(text: Seq<char>) -> Option<JsonView>;

/// `serde_json::from_str` into a `serde_json::Value`, whose items and fields are
/// written as JSON text again. The grammar of JSON is not restated here.
#[verifier::external_body]
pub(crate) fn read_json(text: &str) -> (r: Option<Json>)
    ensures
        seen_json(r) == parsed_json(text@),
{
    Some(
        match serde_json::from_str::<serde_json::Value>(text).ok()? {
            serde_json::Value::Null => Json::Null,
            serde_json::Value::Bool(on) => Json::Flag(on),
            serde_json::Value::Number(n) => Json::Number(n.as_u64()),
            serde_json::Value::String(text) => Json::Text(text),
            serde_json::Value::Array(items) => Json::List(
                items.iter().map(|item| item.to_string()).collect(),
            ),
            serde_json::Value::Object(fields) => Json::Object(
                fields.iter().map(|(name, value)| (name.clone(), value.to_string())).collect(),
            ),
        },
    )
}

/// The JSON text of the first field with that name at or after `from`.
pub open spec fn field_text(
    fields: Seq<(Seq<char>, Seq<char>)>,
    name: Seq<char>,
    from: int,
) -> Option<Seq<char>>
    decreases fields.len() - from,
{
    if from < 0 || from >= fields.len() {
        None
    } else if fields[from].0 == name {
        Some(fields[from].1)
    } else {
        field_text(fields, name, from + 1)
    }
}

/// The JSON text of a field of an object; no other value has fields.
pub open spec fn field_of(value: JsonView, name: Seq<char>) -> Option<Seq<char>> {
    match value {
        JsonView::Object(fields) => field_text(fields, name, 0),
        _ => None,
    }
}

impl Json {
    pub fn field(&self, name: &str) -> (r: Option<String>)
        ensures
            crate::text::maybe_text(r) == field_of(self@, name@),
    {
        match self {
            Json::Object(fields) => {
                let ghost all = pair_texts(fields@);
                for i in 0..fields.len()
                    invariant
                        all == pair_texts(fields@),
                        self@ == JsonView::Object(all),
                        field_text(all, name@, 0) == field_text(all, name@, i as int),
                {
                    assert(all[i as int] == (fields@[i as int].0@, fields@[i as int].1@));
                    if same(fields[i].0.as_str(), name) {
                        return Some(fields[i].1.clone());
                    }
                }
                None
            },
            _ => None,
        }
    }
}

/// The value of a field: read from its text where the object has it.
pub open spec fn field_value(value: JsonView, name: Seq<char>) -> Option<JsonView> {
    match field_of(value, name) {
        Some(text) => parsed_json(text),
        None => None,
    }
}

pub(crate) fn read_field(value: &Json, name: &str) -> (r: Option<Json>)
    ensures
        seen_json(r) == field_value(value@, name@),
{
    match value.field(name) {
        Some(text) => read_json(text.as_str()),
        None => None,
    }
}

/// A field is found where there is one of that name, and then the first; only objects have
/// fields.
pub proof fn law_first_field_is_found(
    fields: Seq<(Seq<char>, Seq<char>)>,
    name: Seq<char>,
    i: int,
)
    ensures
        field_of(JsonView::Object(fields), name) is None <==> forall|j: int|
            0 <= j < fields.len() ==> (#[trigger] fields[j]).0 != name,
        0 <= i < fields.len() && fields[i].0 == name && (forall|j: int|
            0 <= j < i ==> (#[trigger] fields[j]).0 != name) ==> field_of(
            JsonView::Object(fields),
            name,
        ) == Some(fields[i].1),
        field_of(JsonView::Null, name) is None,
{
    lemma_field_from(fields, name, 0, i);
}

proof fn lemma_field_from(
    fields: Seq<(Seq<char>, Seq<char>)>,
    name: Seq<char>,
    from: int,
    i: int,
)
    requires
        0 <= from <= fields.len(),
    ensures
        field_text(fields, name, from) is None <==> forall|j: int|
            from <= j < fields.len() ==> (#[trigger] fields[j]).0 != name,
        from <= i < fields.len() && fields[i].0 == name && (forall|j: int|
            from <= j < i ==> (#[trigger] fields[j]).0 != name) ==> field_text(fields, name, from)
            == Some(fields[i].1),
    decreases fields.len() - from,
{
    if from < fields.len() && fields[from].0 != name {
        lemma_field_from(fields, name, from + 1, i);
    }
}

} // verus!

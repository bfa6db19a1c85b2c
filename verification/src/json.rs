//! JSON documents as plain values, and their text form.
//!
//! The text form is read and written by `serde_json`; what a document
//! means to the tools is decided here, on [`JsonValue`].

use crate::text::text_eq;
use vstd::prelude::*;
use vstd::string::StringExecFns;

verus! {

/// A JSON document held in plain values. A number is held as its decimal
/// text; an object as its members in order.
pub enum JsonValue {
    Null,
    Bool(bool),
    Number(String),
    Text(String),
    Array(Vec<JsonValue>),
    Object(Vec<(String, JsonValue)>),
}

/// The mathematical content of a [`JsonValue`].
pub ghost enum JsonDoc {
    Null,
    Bool(bool),
    Number(Seq<char>),
    Text(Seq<char>),
    Array(Seq<JsonDoc>),
    Object(Seq<(Seq<char>, JsonDoc)>),
}

/// The content of a value: texts by their characters, arrays and objects
/// element by element.
pub open spec fn doc_of(value: JsonValue) -> JsonDoc
    decreases value,
{
    match value {
        JsonValue::Null => JsonDoc::Null,
        JsonValue::Bool(b) => JsonDoc::Bool(b),
        JsonValue::Number(n) => JsonDoc::Number(n@),
        JsonValue::Text(t) => JsonDoc::Text(t@),
        JsonValue::Array(items) => JsonDoc::Array(
            Seq::new(
                items@.len(),
                |i: int|
                    if 0 <= i < items@.len() {
                        doc_of(items@[i])
                    } else {
                        JsonDoc::Null
                    },
            ),
        ),
        JsonValue::Object(members) => JsonDoc::Object(
            Seq::new(
                members@.len(),
                |i: int|
                    if 0 <= i < members@.len() {
                        (members@[i].0@, doc_of(members@[i].1))
                    } else {
                        (Seq::empty(), JsonDoc::Null)
                    },
            ),
        ),
    }
}

impl View for JsonValue {
    type V = JsonDoc;

    open spec fn view(&self) -> JsonDoc {
        doc_of(*self)
    }
}

/// The contents of a list of values.
pub open spec fn docs_of(values: Seq<JsonValue>) -> Seq<JsonDoc> {
    Seq::new(values.len(), |i: int| values[i]@)
}

/// The contents of a list of members.
pub open spec fn members_of(members: Seq<(String, JsonValue)>) -> Seq<(Seq<char>, JsonDoc)> {
    Seq::new(members.len(), |i: int| (members[i].0@, members[i].1@))
}

/// The value of the first member of `members` named `key`, if there is one.
pub open spec fn member(members: Seq<(Seq<char>, JsonDoc)>, key: Seq<char>) -> Option<JsonDoc>
    decreases members.len(),
{
    if members.len() == 0 {
        None
    } else if members.first().0 == key {
        Some(members.first().1)
    } else {
        member(members.drop_first(), key)
    }
}

/// The member named `key` of `doc`, where `doc` is an object that has one.
pub open spec fn field(doc: JsonDoc, key: Seq<char>) -> Option<JsonDoc> {
    match doc {
        JsonDoc::Object(members) => member(members, key),
        _ => None,
    }
}

/// The text of the member named `key` of `doc`, where `doc` is an object
/// whose first member of that name is a string.
pub open spec fn text_field(doc: JsonDoc, key: Seq<char>) -> Option<Seq<char>> {
    match field(doc, key) {
        Some(JsonDoc::Text(t)) => Some(t),
        _ => None,
    }
}

/// The document that a JSON text decodes to, or `None` where the text is
/// not one JSON value: what `serde_json::from_str` makes of it.
pub uninterp spec fn json_decoded(text: Seq<char>) -> Option<JsonDoc>;

/// The compact JSON text of a document: what `serde_json::to_string`
/// writes for it.
pub uninterp spec fn json_encoded(doc: JsonDoc) -> Seq<char>;

/// Makes `serde_json::Value` known as an opaque type: nothing is read
/// from a value of it but by `serde_json`.
#[verifier::external_type_specification]
#[verifier::external_body]
pub struct ExValue(serde_json::Value);

/// Moves a `serde_json::Value` into a [`JsonValue`], variant by variant;
/// a number becomes the text that `serde_json::Number` displays. Nothing
/// is claimed of the result here: [`decode_json`] names it.
#[verifier::external_body]
fn lift_value(value: serde_json::Value) -> JsonValue {
    match value {
        serde_json::Value::Null => JsonValue::Null,
        serde_json::Value::Bool(b) => JsonValue::Bool(b),
        serde_json::Value::Number(n) => JsonValue::Number(n.to_string()),
        serde_json::Value::String(s) => JsonValue::Text(s),
        serde_json::Value::Array(a) => JsonValue::Array(a.into_iter().map(lift_value).collect()),
        serde_json::Value::Object(m) => JsonValue::Object(
            m.into_iter().map(|(k, v)| (k, lift_value(v))).collect(),
        ),
    }
}

/// Copies a [`JsonValue`] into a `serde_json::Value`, variant by variant;
/// a number is read back by `serde_json` from its text, and is null where
/// `serde_json` does not take the text for a number. Nothing is claimed of
/// the result here: [`encode_json`] names it.
#[verifier::external_body]
fn lower_value(value: &JsonValue) -> serde_json::Value {
    match value {
        JsonValue::Null => serde_json::Value::Null,
        JsonValue::Bool(b) => serde_json::Value::Bool(*b),
        JsonValue::Number(n) => serde_json::from_str::<serde_json::Number>(n).map_or(
            serde_json::Value::Null,
            serde_json::Value::Number,
        ),
        JsonValue::Text(t) => serde_json::Value::String(t.clone()),
        JsonValue::Array(a) => serde_json::Value::Array(a.iter().map(lower_value).collect()),
        JsonValue::Object(m) => serde_json::Value::Object(
            m.iter().map(|(k, v)| (k.clone(), lower_value(v))).collect(),
        ),
    }
}

/// Decodes a JSON text with `serde_json::from_str`, as a
/// `serde_json::Value`. The result is a function of the text alone, named
/// [`json_decoded`]; it is `None` exactly where `serde_json` returns an
/// error.
#[verifier::external_body]
pub(crate) fn decode_json(text: &str) -> (r: Option<JsonValue>)
    ensures
        match r {
            Some(v) => json_decoded(text@) == Some(v@),
            None => json_decoded(text@) is None,
        },
{
    match serde_json::from_str::<serde_json::Value>(text) {
        Ok(value) => Some(lift_value(value)),
        Err(_) => None,
    }
}

/// Writes a document as compact JSON text with `serde_json::to_string`.
/// The text is a function of the document alone, named [`json_encoded`].
/// Writing a `serde_json::Value` to a string has no error case; should
/// one arise, the text is empty.
#[verifier::external_body]
pub(crate) fn encode_json(value: &JsonValue) -> (r: String)
    ensures
        r@ == json_encoded(value@),
{
    serde_json::to_string(&lower_value(value)).unwrap_or_default()
}

impl JsonValue {
    /// A JSON string that holds `text`.
    pub fn text(text: &str) -> (r: JsonValue)
        ensures
            r@ == JsonDoc::Text(text@),
    {
        JsonValue::Text(String::from_str(text))
    }

    /// A JSON array of the given elements.
    pub fn array(items: Vec<JsonValue>) -> (r: JsonValue)
        ensures
            r@ == JsonDoc::Array(docs_of(items@)),
    {
        let r = JsonValue::Array(items);
        assert(r@->Array_0 =~= docs_of(items@));
        r
    }

    /// A JSON object of the given members, in order.
    pub fn object(members: Vec<(String, JsonValue)>) -> (r: JsonValue)
        ensures
            r@ == JsonDoc::Object(members_of(members@)),
    {
        let r = JsonValue::Object(members);
        assert(r@->Object_0 =~= members_of(members@));
        r
    }

    /// The document that `text` decodes to, if it is one JSON value.
    pub fn parse(text: &str) -> (r: Option<JsonValue>)
        ensures
            match r {
                Some(v) => json_decoded(text@) == Some(v@),
                None => json_decoded(text@) is None,
            },
    {
        decode_json(text)
    }

    /// The compact JSON text of this document.
    pub fn to_text(&self) -> (r: String)
        ensures
            r@ == json_encoded(self@),
    {
        encode_json(self)
    }

    /// The member named `key`, where this is an object that has one; the
    /// first such member where there are several.
    pub fn get(&self, key: &str) -> (r: Option<&JsonValue>)
        ensures
            match r {
                Some(v) => field(self@, key@) == Some(v@),
                None => field(self@, key@) is None,
            },
    {
        match self {
            JsonValue::Object(members) => {
                let ghost all = self@->Object_0;
                assert(all.len() == members@.len());
                assert(forall|k: int|
                    0 <= k < members@.len() ==> #[trigger] all[k] == (
                        members@[k].0@,
                        members@[k].1@,
                    ));
                assert(all.skip(0) == all);
                let mut i: usize = 0;
                while i < members.len()
                    invariant
                        i <= members@.len(),
                        all.len() == members@.len(),
                        forall|k: int|
                            0 <= k < members@.len() ==> #[trigger] all[k] == (
                                members@[k].0@,
                                members@[k].1@,
                            ),
                        member(all.skip(i as int), key@) == field(self@, key@),
                    decreases members@.len() - i,
                {
                    assert(all.skip(i as int).drop_first() == all.skip(i as int + 1));
                    assert(all.skip(i as int).first() == all[i as int]);
                    if text_eq(members[i].0.as_str(), key) {
                        assert(all[i as int] == (members@[i as int].0@, members@[i as int].1@));
                        return Some(&members[i].1);
                    }
                    i = i + 1;
                }
                assert(all.skip(i as int).len() == 0);
                None
            },
            _ => None,
        }
    }

    /// The text of this document, where it is a string.
    pub fn as_text(&self) -> (r: Option<&str>)
        ensures
            match r {
                Some(t) => self@ == JsonDoc::Text(t@),
                None => !(self@ is Text),
            },
    {
        match self {
            JsonValue::Text(t) => Some(t.as_str()),
            _ => None,
        }
    }

    /// The elements of this document, where it is an array.
    pub fn as_array(&self) -> (r: Option<&Vec<JsonValue>>)
        ensures
            match r {
                Some(items) => self@ == JsonDoc::Array(docs_of(items@)),
                None => !(self@ is Array),
            },
    {
        match self {
            JsonValue::Array(items) => {
                assert(self@->Array_0 =~= docs_of(items@));
                Some(items)
            },
            _ => None,
        }
    }

    /// The text of the member named `key`, where this is an object whose
    /// first member of that name is a string.
    pub fn get_text(&self, key: &str) -> (r: Option<&str>)
        ensures
            match r {
                Some(t) => text_field(self@, key@) == Some(t@),
                None => text_field(self@, key@) is None,
            },
    {
        match self.get(key) {
            Some(v) => v.as_text(),
            None => None,
        }
    }
}

} // verus!

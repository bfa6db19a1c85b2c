//! Tool outcomes: what a tool call gave, typed per tool, and the JSON
//! object that reports it to the model.
//!
//! An outcome is written as `{"status":"ok","result":…}` or as
//! `{"status":"error","message":…}`.

use crate::json::{json_encoded, JsonDoc, JsonValue};
use vstd::prelude::*;
use vstd::string::StringExecFns;

verus! {

pub const STATUS_KEY: &'static str = "status";

pub const STATUS_OK: &'static str = "ok";

pub const STATUS_ERROR: &'static str = "error";

pub const RESULT_KEY: &'static str = "result";

pub const MESSAGE_KEY: &'static str = "message";

pub const NAME_KEY: &'static str = "name";

pub const IS_DIR_KEY: &'static str = "is_dir";

pub const IS_FILE_KEY: &'static str = "is_file";

pub const CONTENT_KEY: &'static str = "content";

pub const WRITTEN_KEY: &'static str = "written";

/// One child of a listed directory. The two flags are found
/// independently: for a symlink, or another kind of file, both are false.
pub struct DirEntry {
    pub name: String,
    pub is_dir: bool,
    pub is_file: bool,
}

/// The mathematical content of a [`DirEntry`].
pub ghost struct EntryView {
    pub name: Seq<char>,
    pub is_dir: bool,
    pub is_file: bool,
}

impl View for DirEntry {
    type V = EntryView;

    open spec fn view(&self) -> EntryView {
        EntryView { name: self.name@, is_dir: self.is_dir, is_file: self.is_file }
    }
}

/// The contents of a list of entries.
pub open spec fn entries_view(entries: Seq<DirEntry>) -> Seq<EntryView> {
    Seq::new(entries.len(), |i: int| entries[i]@)
}

/// What a tool call gave on success.
pub enum ToolPayload {
    /// The children of a directory.
    Listing(Vec<DirEntry>),
    /// The text of a file.
    Content(String),
    /// A file was written.
    Written,
}

/// The mathematical content of a [`ToolPayload`].
pub ghost enum PayloadView {
    Listing(Seq<EntryView>),
    Content(Seq<char>),
    Written,
}

impl View for ToolPayload {
    type V = PayloadView;

    open spec fn view(&self) -> PayloadView {
        match self {
            ToolPayload::Listing(entries) => PayloadView::Listing(entries_view(entries@)),
            ToolPayload::Content(text) => PayloadView::Content(text@),
            ToolPayload::Written => PayloadView::Written,
        }
    }
}

/// The outcome of a tool call.
pub enum ToolResult {
    Success { result: ToolPayload },
    Error { message: String },
}

/// The mathematical content of a [`ToolResult`].
pub ghost enum Outcome {
    Success { result: PayloadView },
    Error { message: Seq<char> },
}

impl View for ToolResult {
    type V = Outcome;

    open spec fn view(&self) -> Outcome {
        match self {
            ToolResult::Success { result } => Outcome::Success { result: result@ },
            ToolResult::Error { message } => Outcome::Error { message: message@ },
        }
    }
}

/// The JSON object for one entry: its name and its two flags.
pub open spec fn entry_doc(entry: EntryView) -> JsonDoc {
    JsonDoc::Object(
        seq![
            (NAME_KEY@, JsonDoc::Text(entry.name)),
            (IS_DIR_KEY@, JsonDoc::Bool(entry.is_dir)),
            (IS_FILE_KEY@, JsonDoc::Bool(entry.is_file)),
        ],
    )
}

/// The JSON value for a payload: an array of entries for a listing,
/// `{"content":…}` for the text of a file, `{"written":true}` for a write.
pub open spec fn payload_doc(payload: PayloadView) -> JsonDoc {
    match payload {
        PayloadView::Listing(entries) => JsonDoc::Array(
            Seq::new(entries.len(), |i: int| entry_doc(entries[i])),
        ),
        PayloadView::Content(text) => JsonDoc::Object(seq![(CONTENT_KEY@, JsonDoc::Text(text))]),
        PayloadView::Written => JsonDoc::Object(seq![(WRITTEN_KEY@, JsonDoc::Bool(true))]),
    }
}

/// The JSON object that reports an outcome.
pub open spec fn outcome_doc(outcome: Outcome) -> JsonDoc {
    match outcome {
        Outcome::Success { result } => JsonDoc::Object(
            seq![(STATUS_KEY@, JsonDoc::Text(STATUS_OK@)), (RESULT_KEY@, payload_doc(result))],
        ),
        Outcome::Error { message } => JsonDoc::Object(
            seq![
                (STATUS_KEY@, JsonDoc::Text(STATUS_ERROR@)),
                (MESSAGE_KEY@, JsonDoc::Text(message)),
            ],
        ),
    }
}

/// The JSON text that reports an outcome.
pub open spec fn outcome_text(outcome: Outcome) -> Seq<char> {
    json_encoded(outcome_doc(outcome))
}

/// A JSON object with one member.
fn json_object1(key: &str, value: JsonValue) -> (r: JsonValue)
    ensures
        r@ == JsonDoc::Object(seq![(key@, value@)]),
{
    let mut members: Vec<(String, JsonValue)> = Vec::new();
    members.push((String::from_str(key), value));
    let r = JsonValue::object(members);
    assert(r@->Object_0 =~= seq![(key@, value@)]);
    r
}

/// A JSON object with two members.
fn json_object2(key1: &str, value1: JsonValue, key2: &str, value2: JsonValue) -> (r: JsonValue)
    ensures
        r@ == JsonDoc::Object(seq![(key1@, value1@), (key2@, value2@)]),
{
    let mut members: Vec<(String, JsonValue)> = Vec::new();
    members.push((String::from_str(key1), value1));
    members.push((String::from_str(key2), value2));
    let r = JsonValue::object(members);
    assert(r@->Object_0 =~= seq![(key1@, value1@), (key2@, value2@)]);
    r
}

impl DirEntry {
    /// The JSON object for this entry.
    pub fn to_json(&self) -> (r: JsonValue)
        ensures
            r@ == entry_doc(self@),
    {
        let mut members: Vec<(String, JsonValue)> = Vec::new();
        members.push((String::from_str(NAME_KEY), JsonValue::text(self.name.as_str())));
        members.push((String::from_str(IS_DIR_KEY), JsonValue::Bool(self.is_dir)));
        members.push((String::from_str(IS_FILE_KEY), JsonValue::Bool(self.is_file)));
        let r = JsonValue::object(members);
        assert(r@->Object_0 =~= entry_doc(self@)->Object_0);
        r
    }
}

impl ToolPayload {
    /// The JSON value for this payload.
    pub fn to_json(&self) -> (r: JsonValue)
        ensures
            r@ == payload_doc(self@),
    {
        match self {
            ToolPayload::Listing(entries) => {
                let mut items: Vec<JsonValue> = Vec::new();
                let mut i: usize = 0;
                while i < entries.len()
                    invariant
                        i <= entries@.len(),
                        items@.len() == i,
                        forall|k: int| 0 <= k < i ==> (#[trigger] items@[k])@ == entry_doc(entries@[k]@),
                    decreases entries@.len() - i,
                {
                    items.push(entries[i].to_json());
                    i = i + 1;
                }
                let r = JsonValue::array(items);
                assert(r@->Array_0 =~= payload_doc(self@)->Array_0);
                r
            },
            ToolPayload::Content(text) => json_object1(CONTENT_KEY, JsonValue::text(text.as_str())),
            ToolPayload::Written => json_object1(WRITTEN_KEY, JsonValue::Bool(true)),
        }
    }
}

impl ToolResult {
    /// The JSON object that reports this outcome.
    pub fn to_json(&self) -> (r: JsonValue)
        ensures
            r@ == outcome_doc(self@),
    {
        match self {
            ToolResult::Success { result } => json_object2(
                STATUS_KEY,
                JsonValue::text(STATUS_OK),
                RESULT_KEY,
                result.to_json(),
            ),
            ToolResult::Error { message } => json_object2(
                STATUS_KEY,
                JsonValue::text(STATUS_ERROR),
                MESSAGE_KEY,
                JsonValue::text(message.as_str()),
            ),
        }
    }

    /// The JSON text that reports this outcome.
    pub fn to_text(&self) -> (r: String)
        ensures
            r@ == outcome_text(self@),
    {
        self.to_json().to_text()
    }

    /// Whether the call succeeded.
    pub fn is_ok(&self) -> (r: bool)
        ensures
            r == (self@ is Success),
    {
        match self {
            ToolResult::Success { .. } => true,
            ToolResult::Error { .. } => false,
        }
    }
}

} // verus!

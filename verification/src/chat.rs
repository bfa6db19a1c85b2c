//! The wire format of the model backend: the body of a chat request, and
//! the completion held in the body of a response.
//!
//! Sending the one and receiving the other is the caller's part.

use crate::agent::{ChatMessage, Message, Role};
use crate::json::{docs_of, field, json_decoded, json_encoded, text_field, JsonDoc, JsonValue};
use vstd::prelude::*;
use vstd::string::StringExecFns;

verus! {

/// The model that completions are asked of.
pub const MODEL: &'static str = "qwen2.5-coder-7b";

pub const MODEL_KEY: &'static str = "model";

pub const MESSAGES_KEY: &'static str = "messages";

pub const STREAM_KEY: &'static str = "stream";

pub const ROLE_KEY: &'static str = "role";

pub const CONTENT_KEY: &'static str = "content";

pub const CHOICES_KEY: &'static str = "choices";

pub const MESSAGE_KEY: &'static str = "message";

pub const ROLE_SYSTEM: &'static str = "system";

pub const ROLE_USER: &'static str = "user";

pub const ROLE_ASSISTANT: &'static str = "assistant";

/// The name of a role on the wire.
pub open spec fn role_name(role: Role) -> Seq<char> {
    match role {
        Role::System => ROLE_SYSTEM@,
        Role::User => ROLE_USER@,
        Role::Assistant => ROLE_ASSISTANT@,
    }
}

/// The JSON object for one message: its role, then its content.
pub open spec fn message_doc(message: Message) -> JsonDoc {
    JsonDoc::Object(
        seq![
            (ROLE_KEY@, JsonDoc::Text(role_name(message.role))),
            (CONTENT_KEY@, JsonDoc::Text(message.content)),
        ],
    )
}

/// The JSON object that asks `model` to complete `messages`: the model,
/// every message in order, and a flag that asks for one whole answer
/// instead of a stream.
pub open spec fn request_doc(model: Seq<char>, messages: Seq<Message>) -> JsonDoc {
    JsonDoc::Object(
        seq![
            (MODEL_KEY@, JsonDoc::Text(model)),
            (
                MESSAGES_KEY@,
                JsonDoc::Array(Seq::new(messages.len(), |i: int| message_doc(messages[i]))),
            ),
            (STREAM_KEY@, JsonDoc::Bool(false)),
        ],
    )
}

/// The completion that one choice holds: the string member `content` of
/// its member `message`.
pub open spec fn choice_content(choice: JsonDoc) -> Option<Seq<char>> {
    match field(choice, MESSAGE_KEY@) {
        Some(message) => text_field(message, CONTENT_KEY@),
        None => None,
    }
}

/// The completion that a response document holds. Its member `choices`
/// is an array in which every choice holds a completion; the completion
/// is that of the first choice, and is empty where there is no choice. A
/// document of another shape holds none.
pub open spec fn completion_of(doc: JsonDoc) -> Option<Seq<char>> {
    match field(doc, CHOICES_KEY@) {
        Some(JsonDoc::Array(choices)) => if forall|i: int|
            0 <= i < choices.len() ==> (#[trigger] choice_content(choices[i])) is Some {
            if choices.len() == 0 {
                Some(Seq::empty())
            } else {
                choice_content(choices[0])
            }
        } else {
            None
        },
        _ => None,
    }
}

/// The completion that the body of a response holds, if it holds one.
pub open spec fn parsed_completion(body: Seq<char>) -> Option<Seq<char>> {
    match json_decoded(body) {
        Some(doc) => completion_of(doc),
        None => None,
    }
}

/// The view of an optional text.
pub open spec fn text_view(text: Option<String>) -> Option<Seq<char>> {
    match text {
        Some(t) => Some(t@),
        None => None,
    }
}

impl Role {
    /// The name of the role on the wire.
    pub fn name(&self) -> (name: &'static str)
        ensures
            name@ == role_name(*self),
    {
        match self {
            Role::System => ROLE_SYSTEM,
            Role::User => ROLE_USER,
            Role::Assistant => ROLE_ASSISTANT,
        }
    }
}

impl ChatMessage {
    /// The JSON object for this message.
    pub fn to_json(&self) -> (r: JsonValue)
        ensures
            r@ == message_doc(self@),
    {
        let mut members: Vec<(String, JsonValue)> = Vec::new();
        members.push(
            (String::from_str(ROLE_KEY), JsonValue::text(self.role.name())),
        );
        members.push((String::from_str(CONTENT_KEY), JsonValue::text(self.content.as_str())));
        let r = JsonValue::object(members);
        assert(r@->Object_0 =~= message_doc(self@)->Object_0);
        r
    }
}

/// The JSON object that asks `model` to complete `messages`.
pub fn chat_request(model: &str, messages: &Vec<ChatMessage>) -> (r: JsonValue)
    ensures
        r@ == request_doc(model@, crate::agent::messages_view(messages@)),
{
    let mut items: Vec<JsonValue> = Vec::new();
    let mut i: usize = 0;
    while i < messages.len()
        invariant
            i <= messages@.len(),
            items@.len() == i,
            forall|k: int| 0 <= k < i ==> (#[trigger] items@[k])@ == message_doc(messages@[k]@),
        decreases messages@.len() - i,
    {
        items.push(messages[i].to_json());
        i = i + 1;
    }
    let list = JsonValue::array(items);
    let ghost views = crate::agent::messages_view(messages@);
    assert(list@->Array_0 =~= Seq::new(views.len(), |i: int| message_doc(views[i])));
    let mut members: Vec<(String, JsonValue)> = Vec::new();
    members.push((String::from_str(MODEL_KEY), JsonValue::text(model)));
    members.push((String::from_str(MESSAGES_KEY), list));
    members.push((String::from_str(STREAM_KEY), JsonValue::Bool(false)));
    let r = JsonValue::object(members);
    assert(r@->Object_0 =~= request_doc(model@, views)->Object_0);
    r
}

/// The body of the request that asks `model` to complete `messages`, as
/// JSON text.
pub fn request_body(model: &str, messages: &Vec<ChatMessage>) -> (body: String)
    ensures
        body@ == json_encoded(request_doc(model@, crate::agent::messages_view(messages@))),
{
    chat_request(model, messages).to_text()
}

/// The completion that one choice holds.
fn content_of_choice(choice: &JsonValue) -> (r: Option<&str>)
    ensures
        match r {
            Some(t) => choice_content(choice@) == Some(t@),
            None => choice_content(choice@) is None,
        },
{
    match choice.get(MESSAGE_KEY) {
        Some(message) => message.get_text(CONTENT_KEY),
        None => None,
    }
}

/// Reads the completion from a decoded response.
pub fn completion_from_json(doc: &JsonValue) -> (r: Option<String>)
    ensures
        text_view(r) == completion_of(doc@),
{
    let choices = match doc.get(CHOICES_KEY) {
        Some(value) => match value.as_array() {
            Some(choices) => choices,
            None => { return None; },
        },
        None => { return None; },
    };
    let ghost docs = docs_of(choices@);
    let mut i: usize = 0;
    while i < choices.len()
        invariant
            i <= choices@.len(),
            docs == docs_of(choices@),
            field(doc@, CHOICES_KEY@) == Some(JsonDoc::Array(docs)),
            forall|k: int| 0 <= k < i ==> (#[trigger] choice_content(docs[k])) is Some,
        decreases choices@.len() - i,
    {
        if content_of_choice(&choices[i]).is_none() {
            assert(choice_content(docs[i as int]) is None);
            return None;
        }
        i = i + 1;
    }
    if choices.len() == 0 {
        Some(String::new())
    } else {
        match content_of_choice(&choices[0]) {
            Some(text) => Some(String::from_str(text)),
            None => None,
        }
    }
}

/// Reads the completion from the body of a response.
pub fn parse_completion(body: &str) -> (r: Option<String>)
    ensures
        text_view(r) == parsed_completion(body@),
{
    match JsonValue::parse(body) {
        Some(doc) => completion_from_json(&doc),
        None => None,
    }
}

} // verus!

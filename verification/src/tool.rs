//! Tool calls: the three requests that a model can make, and how one is
//! read from a JSON document.
//!
//! A tool call is a JSON object whose member `tool` names the tool; the
//! other members it needs are strings. Members that a tool does not need
//! are ignored.

use crate::json::{json_decoded, text_field, JsonDoc, JsonValue};
use crate::text::text_eq;
use vstd::prelude::*;
use vstd::string::StringExecFns;

verus! {

/// The member that names the tool.
pub const TOOL_KEY: &'static str = "tool";

/// The member that holds the path, relative to the sandbox root.
pub const PATH_KEY: &'static str = "path";

/// The member that holds the text to write.
pub const CONTENT_KEY: &'static str = "content";

/// The name of the tool that lists a directory.
pub const LIST_DIR: &'static str = "list_dir";

/// The name of the tool that reads a file.
pub const READ_FILE: &'static str = "read_file";

/// The name of the tool that writes a file.
pub const WRITE_FILE: &'static str = "write_file";

/// A request made by the model. Each path is relative to the sandbox root.
pub enum ToolCall {
    ListDir { path: String },
    ReadFile { path: String },
    WriteFile { path: String, content: String },
}

/// The mathematical content of a [`ToolCall`].
pub ghost enum ToolIntent {
    ListDir { path: Seq<char> },
    ReadFile { path: Seq<char> },
    WriteFile { path: Seq<char>, content: Seq<char> },
}

impl View for ToolCall {
    type V = ToolIntent;

    open spec fn view(&self) -> ToolIntent {
        match self {
            ToolCall::ListDir { path } => ToolIntent::ListDir { path: path@ },
            ToolCall::ReadFile { path } => ToolIntent::ReadFile { path: path@ },
            ToolCall::WriteFile { path, content } => ToolIntent::WriteFile {
                path: path@,
                content: content@,
            },
        }
    }
}

/// Why a text is no tool call.
#[derive(Clone, Copy, Debug, PartialEq, Eq, Structural)]
pub enum ParseError {
    /// The text is not one JSON value.
    Malformed,
    /// The document is no object with a string member `tool`.
    NoTool,
    /// The member `tool` names none of the three tools.
    UnknownTool,
    /// A member that the tool needs is absent, or is no string.
    MissingField,
}

/// Whether `name` is the name of one of the three tools.
pub open spec fn is_tool_name(name: Seq<char>) -> bool {
    name == LIST_DIR@ || name == READ_FILE@ || name == WRITE_FILE@
}

/// The tool call that a document holds, or why it holds none.
pub open spec fn intent_of(doc: JsonDoc) -> Result<ToolIntent, ParseError> {
    match text_field(doc, TOOL_KEY@) {
        None => Err(ParseError::NoTool),
        Some(name) => if !is_tool_name(name) {
            Err(ParseError::UnknownTool)
        } else {
            match text_field(doc, PATH_KEY@) {
                None => Err(ParseError::MissingField),
                Some(path) => if name == LIST_DIR@ {
                    Ok(ToolIntent::ListDir { path })
                } else if name == READ_FILE@ {
                    Ok(ToolIntent::ReadFile { path })
                } else {
                    match text_field(doc, CONTENT_KEY@) {
                        None => Err(ParseError::MissingField),
                        Some(content) => Ok(ToolIntent::WriteFile { path, content }),
                    }
                },
            }
        },
    }
}

/// The tool call that a text holds, or why it holds none: the text is
/// decoded as JSON, and the document is read by [`intent_of`].
pub open spec fn parsed_intent(text: Seq<char>) -> Result<ToolIntent, ParseError> {
    match json_decoded(text) {
        None => Err(ParseError::Malformed),
        Some(doc) => intent_of(doc),
    }
}

/// The view of a parse result.
pub open spec fn parse_view(r: Result<ToolCall, ParseError>) -> Result<ToolIntent, ParseError> {
    match r {
        Ok(call) => Ok(call@),
        Err(e) => Err(e),
    }
}

impl ToolCall {
    /// Reads a tool call from a decoded document.
    pub fn from_json(doc: &JsonValue) -> (r: Result<ToolCall, ParseError>)
        ensures
            parse_view(r) == intent_of(doc@),
    {
        let name = match doc.get_text(TOOL_KEY) {
            Some(name) => name,
            None => { return Err(ParseError::NoTool); },
        };
        let lists = text_eq(name, LIST_DIR);
        let reads = text_eq(name, READ_FILE);
        let writes = text_eq(name, WRITE_FILE);
        if !lists && !reads && !writes {
            return Err(ParseError::UnknownTool);
        }
        let path = match doc.get_text(PATH_KEY) {
            Some(path) => String::from_str(path),
            None => { return Err(ParseError::MissingField); },
        };
        if lists {
            Ok(ToolCall::ListDir { path })
        } else if reads {
            Ok(ToolCall::ReadFile { path })
        } else {
            match doc.get_text(CONTENT_KEY) {
                Some(content) => Ok(ToolCall::WriteFile { path, content: String::from_str(content) }),
                None => Err(ParseError::MissingField),
            }
        }
    }

    /// Reads a tool call from a JSON text.
    pub fn parse(text: &str) -> (r: Result<ToolCall, ParseError>)
        ensures
            parse_view(r) == parsed_intent(text@),
    {
        match JsonValue::parse(text) {
            Some(doc) => ToolCall::from_json(&doc),
            None => Err(ParseError::Malformed),
        }
    }

    /// The relative path that the call names.
    pub fn path(&self) -> (path: &str)
        ensures
            path@ == intent_path(self@),
    {
        match self {
            ToolCall::ListDir { path } => path.as_str(),
            ToolCall::ReadFile { path } => path.as_str(),
            ToolCall::WriteFile { path, .. } => path.as_str(),
        }
    }
}

/// The relative path that a tool call names.
pub open spec fn intent_path(intent: ToolIntent) -> Seq<char> {
    match intent {
        ToolIntent::ListDir { path } => path,
        ToolIntent::ReadFile { path } => path,
        ToolIntent::WriteFile { path, .. } => path,
    }
}

/// A document whose member `tool` is absent, is no string, or names none
/// of the three tools holds no tool call.
pub proof fn lemma_unrecognized_tool_rejected(doc: JsonDoc)
    requires
        match text_field(doc, TOOL_KEY@) {
            Some(name) => !is_tool_name(name),
            None => true,
        },
    ensures
        intent_of(doc) is Err,
{
}

/// A document that names a tool, but lacks a member that the tool needs
/// (`path` for every tool, `content` for writing), holds no tool call; nor
/// does one in which such a member is no string.
pub proof fn lemma_missing_field_rejected(doc: JsonDoc)
    requires
        text_field(doc, PATH_KEY@) is None || (text_field(doc, TOOL_KEY@) == Some(WRITE_FILE@)
            && text_field(doc, CONTENT_KEY@) is None),
    ensures
        intent_of(doc) is Err,
{
    reveal_strlit("list_dir");
    reveal_strlit("read_file");
    reveal_strlit("write_file");
    if text_field(doc, TOOL_KEY@) == Some(WRITE_FILE@) {
        assert(WRITE_FILE@.len() == 10);
        assert(LIST_DIR@.len() == 8);
        assert(READ_FILE@.len() == 9);
    }
}

/// A document holds a tool call exactly where its member `tool` names a
/// tool and the members that this tool needs are strings.
pub proof fn lemma_accepted_documents(doc: JsonDoc)
    ensures
        intent_of(doc) is Ok <==> (text_field(doc, TOOL_KEY@) matches Some(name) && is_tool_name(
            name,
        ) && text_field(doc, PATH_KEY@) is Some && (name == WRITE_FILE@ ==> text_field(
            doc,
            CONTENT_KEY@,
        ) is Some)),
{
    reveal_strlit("list_dir");
    reveal_strlit("read_file");
    reveal_strlit("write_file");
    assert(WRITE_FILE@.len() == 10);
    assert(LIST_DIR@.len() == 8);
    assert(READ_FILE@.len() == 9);
}

/// A text that is not one JSON value holds no tool call.
pub proof fn lemma_malformed_rejected(text: Seq<char>)
    requires
        json_decoded(text) is None,
    ensures
        parsed_intent(text) == Err::<ToolIntent, ParseError>(ParseError::Malformed),
{
}

} // verus!

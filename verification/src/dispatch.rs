//! Running a tool call in two steps around the filesystem.
//!
//! [`plan_tool`] turns a tool call into one filesystem request on a path
//! inside the sandbox, or refuses it. The caller performs the request and
//! reports what happened as an [`FsResponse`]; [`complete_tool`] turns
//! that into the outcome. Each request is performed once.

use crate::outcome::{entries_view, DirEntry, EntryView, Outcome, PayloadView, ToolPayload, ToolResult};
use crate::sandbox::{
    has_parent_component, lemma_resolved_under_root, resolved, Sandbox,
};
use crate::text::append_text;
use crate::tool::{intent_path, ToolCall, ToolIntent};
use vstd::prelude::*;
use vstd::string::StringExecFns;

verus! {

pub const READ_DIR_FAILED: &'static str = "read_dir failed on ";

pub const READ_FAILED: &'static str = "Failed to read ";

pub const CREATE_DIRS_FAILED: &'static str = "Failed to create dirs for ";

pub const WRITE_FAILED: &'static str = "Failed to write ";

pub const CAUSE_SEPARATOR: &'static str = ": ";

/// One request to the filesystem. Each path is resolved: it lies under
/// the sandbox root.
pub enum FsRequest {
    /// List the direct children of the directory at `path`.
    ListDir { path: String },
    /// Read the whole file at `path` as text.
    ReadFile { path: String },
    /// Create the directories above `path` that are missing, then create
    /// the file at `path`, or replace it, with `content` as its whole text.
    WriteFile { path: String, content: String },
}

/// The mathematical content of an [`FsRequest`].
pub ghost enum Request {
    ListDir { path: Seq<char> },
    ReadFile { path: Seq<char> },
    WriteFile { path: Seq<char>, content: Seq<char> },
}

impl View for FsRequest {
    type V = Request;

    open spec fn view(&self) -> Request {
        match self {
            FsRequest::ListDir { path } => Request::ListDir { path: path@ },
            FsRequest::ReadFile { path } => Request::ReadFile { path: path@ },
            FsRequest::WriteFile { path, content } => Request::WriteFile {
                path: path@,
                content: content@,
            },
        }
    }
}

/// What the filesystem did with a request. Each `cause` is the failure
/// as the operating system words it.
pub enum FsResponse {
    /// The children of the directory.
    Listing(Vec<DirEntry>),
    /// The text of the file.
    Content(String),
    /// The file was written.
    Written,
    /// The directory could not be opened.
    ReadDirFailed { cause: String },
    /// A child of the directory, or its kind, could not be read.
    EntryFailed { cause: String },
    /// The file could not be read, or its content is no text.
    ReadFailed { cause: String },
    /// The directories above the file could not be created.
    CreateDirsFailed { cause: String },
    /// The file could not be written.
    WriteFailed { cause: String },
}

/// The mathematical content of an [`FsResponse`].
pub ghost enum Response {
    Listing(Seq<EntryView>),
    Content(Seq<char>),
    Written,
    ReadDirFailed { cause: Seq<char> },
    EntryFailed { cause: Seq<char> },
    ReadFailed { cause: Seq<char> },
    CreateDirsFailed { cause: Seq<char> },
    WriteFailed { cause: Seq<char> },
}

impl View for FsResponse {
    type V = Response;

    open spec fn view(&self) -> Response {
        match self {
            FsResponse::Listing(entries) => Response::Listing(entries_view(entries@)),
            FsResponse::Content(text) => Response::Content(text@),
            FsResponse::Written => Response::Written,
            FsResponse::ReadDirFailed { cause } => Response::ReadDirFailed { cause: cause@ },
            FsResponse::EntryFailed { cause } => Response::EntryFailed { cause: cause@ },
            FsResponse::ReadFailed { cause } => Response::ReadFailed { cause: cause@ },
            FsResponse::CreateDirsFailed { cause } => Response::CreateDirsFailed { cause: cause@ },
            FsResponse::WriteFailed { cause } => Response::WriteFailed { cause: cause@ },
        }
    }
}

/// The path that a request is made on.
pub open spec fn request_path(request: Request) -> Seq<char> {
    match request {
        Request::ListDir { path } => path,
        Request::ReadFile { path } => path,
        Request::WriteFile { path, .. } => path,
    }
}

/// The request that a tool call leads to under `root`: the same operation
/// on the resolved path. Where the path is refused, the outcome is the
/// error that carries the violation message, and no request is made.
pub open spec fn planned(root: Seq<char>, intent: ToolIntent) -> Result<Request, Outcome> {
    match resolved(root, intent_path(intent)) {
        Err(message) => Err(Outcome::Error { message }),
        Ok(path) => Ok(
            match intent {
                ToolIntent::ListDir { .. } => Request::ListDir { path },
                ToolIntent::ReadFile { .. } => Request::ReadFile { path },
                ToolIntent::WriteFile { content, .. } => Request::WriteFile { path, content },
            },
        ),
    }
}

/// The message of a failure: what failed, the resolved path, a
/// separator, and the cause.
pub open spec fn failure_message(what: Seq<char>, path: Seq<char>, cause: Seq<char>) -> Seq<char> {
    what + path + CAUSE_SEPARATOR@ + cause
}

/// The outcome of a request on `path` to which the filesystem gave
/// `response`. A success carries what the filesystem gave. A failure to
/// open a directory, to read, to create directories or to write carries
/// the path and the cause; a failure on one child of a directory carries
/// the cause alone.
pub open spec fn completed(path: Seq<char>, response: Response) -> Outcome {
    match response {
        Response::Listing(entries) => Outcome::Success { result: PayloadView::Listing(entries) },
        Response::Content(text) => Outcome::Success { result: PayloadView::Content(text) },
        Response::Written => Outcome::Success { result: PayloadView::Written },
        Response::ReadDirFailed { cause } => Outcome::Error {
            message: failure_message(READ_DIR_FAILED@, path, cause),
        },
        Response::EntryFailed { cause } => Outcome::Error { message: cause },
        Response::ReadFailed { cause } => Outcome::Error {
            message: failure_message(READ_FAILED@, path, cause),
        },
        Response::CreateDirsFailed { cause } => Outcome::Error {
            message: failure_message(CREATE_DIRS_FAILED@, path, cause),
        },
        Response::WriteFailed { cause } => Outcome::Error {
            message: failure_message(WRITE_FAILED@, path, cause),
        },
    }
}

/// The view of a plan.
pub open spec fn plan_view(plan: Result<FsRequest, ToolResult>) -> Result<Request, Outcome> {
    match plan {
        Ok(request) => Ok(request@),
        Err(outcome) => Err(outcome@),
    }
}

impl FsRequest {
    /// The resolved path that the request is made on.
    pub fn path(&self) -> (path: &str)
        ensures
            path@ == request_path(self@),
    {
        match self {
            FsRequest::ListDir { path } => path.as_str(),
            FsRequest::ReadFile { path } => path.as_str(),
            FsRequest::WriteFile { path, .. } => path.as_str(),
        }
    }

    /// A copy of the request.
    pub fn duplicate(&self) -> (copy: FsRequest)
        ensures
            copy@ == self@,
    {
        match self {
            FsRequest::ListDir { path } => FsRequest::ListDir { path: path.clone() },
            FsRequest::ReadFile { path } => FsRequest::ReadFile { path: path.clone() },
            FsRequest::WriteFile { path, content } => FsRequest::WriteFile {
                path: path.clone(),
                content: content.clone(),
            },
        }
    }
}

/// Turns a tool call into the filesystem request to perform, or into the
/// error outcome where the sandbox refuses its path.
pub fn plan_tool(sandbox: &Sandbox, call: ToolCall) -> (plan: Result<FsRequest, ToolResult>)
    ensures
        plan_view(plan) == planned(sandbox.root_text(), call@),
{
    match sandbox.resolve(call.path()) {
        Err(message) => Err(ToolResult::Error { message }),
        Ok(path) => Ok(
            match call {
                ToolCall::ListDir { .. } => FsRequest::ListDir { path },
                ToolCall::ReadFile { .. } => FsRequest::ReadFile { path },
                ToolCall::WriteFile { content, .. } => FsRequest::WriteFile { path, content },
            },
        ),
    }
}

/// The message of a failure, as a text.
fn describe_failure(what: &str, path: &str, cause: &str) -> (message: String)
    ensures
        message@ == failure_message(what@, path@, cause@),
{
    let mut message = append_text(what, path);
    message.append(CAUSE_SEPARATOR);
    message.append(cause);
    message
}

/// Turns what the filesystem did with a request on `path` into the
/// outcome of the tool call.
pub fn complete_tool(path: &str, response: FsResponse) -> (outcome: ToolResult)
    ensures
        outcome@ == completed(path@, response@),
{
    match response {
        FsResponse::Listing(entries) => ToolResult::Success { result: ToolPayload::Listing(entries) },
        FsResponse::Content(text) => ToolResult::Success { result: ToolPayload::Content(text) },
        FsResponse::Written => ToolResult::Success { result: ToolPayload::Written },
        FsResponse::ReadDirFailed { cause } => ToolResult::Error {
            message: describe_failure(READ_DIR_FAILED, path, cause.as_str()),
        },
        FsResponse::EntryFailed { cause } => ToolResult::Error { message: cause },
        FsResponse::ReadFailed { cause } => ToolResult::Error {
            message: describe_failure(READ_FAILED, path, cause.as_str()),
        },
        FsResponse::CreateDirsFailed { cause } => ToolResult::Error {
            message: describe_failure(CREATE_DIRS_FAILED, path, cause.as_str()),
        },
        FsResponse::WriteFailed { cause } => ToolResult::Error {
            message: describe_failure(WRITE_FAILED, path, cause.as_str()),
        },
    }
}

/// Every request is made on a path that starts with the sandbox root and
/// that has a `..` component only where the root itself has one: no tool
/// call reaches the filesystem outside the root.
pub proof fn lemma_requests_stay_in_sandbox(root: Seq<char>, intent: ToolIntent)
    ensures
        planned(root, intent) matches Ok(request) ==> root.is_prefix_of(request_path(request)) && (
        has_parent_component(request_path(request)) <==> has_parent_component(root)),
{
    lemma_resolved_under_root(root, intent_path(intent));
}

/// A tool call whose path has a `..` component makes no request: its
/// outcome is an error.
pub proof fn lemma_violation_makes_no_request(root: Seq<char>, intent: ToolIntent)
    requires
        has_parent_component(intent_path(intent)),
    ensures
        planned(root, intent) matches Err(outcome) && outcome is Error,
{
}

/// A tool call whose path has no `..` component makes a request,
/// whichever directories exist: a write to a path under directories that
/// are yet to be created is requested like any other.
pub proof fn lemma_safe_path_makes_request(root: Seq<char>, intent: ToolIntent)
    requires
        !has_parent_component(intent_path(intent)),
    ensures
        planned(root, intent) is Ok,
{
}

/// Writing `content` to a relative path and reading the same relative path
/// address the same file, the write carries `content` unchanged, and a read
/// that the filesystem answers with `content` gives `content` unchanged:
/// the tools add nothing to, and take nothing from, a text on its way to
/// the file and back.
pub proof fn lemma_write_then_read(root: Seq<char>, rel: Seq<char>, content: Seq<char>)
    requires
        !has_parent_component(rel),
    ensures
        ({
            let write = planned(root, ToolIntent::WriteFile { path: rel, content });
            let read = planned(root, ToolIntent::ReadFile { path: rel });
            &&& write matches Ok(Request::WriteFile { path: written, content: text })
            &&& read matches Ok(Request::ReadFile { path: read_from })
            &&& written == read_from
            &&& text == content
            &&& completed(read_from, Response::Content(content)) == (Outcome::Success {
                result: PayloadView::Content(content),
            })
        }),
{
}

} // verus!

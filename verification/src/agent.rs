//! The conversation: its messages, and the rule that decides, from each
//! model reply, whether a tool runs or the run is over.
//!
//! The agent does no input or output. Its caller sends the messages to
//! the model and performs the filesystem requests; [`Agent::handle`]
//! takes what came back and says what to do next.

use crate::dispatch::{
    complete_tool, completed, plan_tool, planned, request_path, FsRequest, FsResponse, Request,
    Response,
};
use crate::extract::{extract_json_from_markdown, extracted};
use crate::outcome::{outcome_text, Outcome, ToolResult};
use crate::sandbox::Sandbox;
use crate::text::append_text;
use crate::tool::{parsed_intent, ToolCall};
use vstd::prelude::*;
use vstd::string::StringExecFns;

verus! {

/// The content of the message that marks a tool call.
pub const TOOL_CALL_MARKER: &'static str = "TOOL CALL";

/// How the message that reports a tool outcome begins.
pub const TOOL_RESULT_PREFIX: &'static str = "TOOL_RESULT: ";

/// The system prompt, up to the first mention of the workspace root.
pub const PROMPT_HEAD: &'static str =
    "You are a Rust coding agent operating inside a local filesystem workspace.\n\
\n\
Workspace root (you MUST NOT leave this directory): `";

/// The system prompt, between the two mentions of the workspace root.
pub const PROMPT_TOOLS: &'static str =
    "`.\n\
\n\
You cannot run shell commands or access the real OS directly.\n\
Instead, you use the following TOOLS by emitting **pure JSON** (no surrounding text):\n\
\n\
1) List directory contents:\n   {\"tool\": \"list_dir\", \"path\": \"relative/path\"}\n\
\n\
2) Read a file as UTF-8 text:\n   {\"tool\": \"read_file\", \"path\": \"relative/path\"}\n\
\n\
3) Write (create/overwrite) a file with UTF-8 content:\n   {\"tool\": \"write_file\", \"path\": \"relative/path\", \"content\": \"...\"}\n\
\n\
Rules:\n\
- `path` is ALWAYS RELATIVE to the workspace root `";

/// The system prompt, after the second mention of the workspace root.
pub const PROMPT_RULES: &'static str =
    "`.\n\
- NEVER include `..` in paths.\n\
- When you want to use a tool, respond with ONLY the JSON object, nothing else.\n\
- I (the system) will reply with a tool result in the form:\n  TOOL_RESULT: <json>\n\
\n  where the JSON has the shape:\n    {\"status\":\"ok\",\"result\":{...}} or\n    {\"status\":\"error\",\"message\":\"...\"}\n\
\n\
- After seeing a TOOL_RESULT, you may call another tool (again, with pure JSON),\n  or continue with normal reasoning and natural-language explanation.\n\
\n\
- When you are FINISHED with the task, respond with a normal natural-language answer,\n  describing what you did and showing the important code snippets.\n\
\n\
Your main goal:\n\
- Use the tools to inspect and modify files in the workspace\n\
- Create and update Rust source files as requested\n\
- Keep code idiomatic and compilable\n";

/// Who a message is from.
#[derive(Clone, Copy, Debug, PartialEq, Eq, Structural)]
pub enum Role {
    System,
    User,
    Assistant,
}

/// One message of the conversation.
pub struct ChatMessage {
    pub role: Role,
    pub content: String,
}

/// The mathematical content of a [`ChatMessage`].
pub ghost struct Message {
    pub role: Role,
    pub content: Seq<char>,
}

impl View for ChatMessage {
    type V = Message;

    open spec fn view(&self) -> Message {
        Message { role: self.role, content: self.content@ }
    }
}

/// The contents of a list of messages.
pub open spec fn messages_view(messages: Seq<ChatMessage>) -> Seq<Message> {
    Seq::new(messages.len(), |i: int| messages[i]@)
}

/// Where a run stands.
pub enum AgentState {
    /// The model is to be asked for its next reply.
    AwaitingReply,
    /// A tool call was accepted; its request is with the filesystem.
    Executing(FsRequest),
    /// The model gave its final answer.
    Done(String),
}

/// The mathematical content of an [`AgentState`].
pub ghost enum State {
    AwaitingReply,
    Executing(Request),
    Done(Seq<char>),
}

impl View for AgentState {
    type V = State;

    open spec fn view(&self) -> State {
        match self {
            AgentState::AwaitingReply => State::AwaitingReply,
            AgentState::Executing(request) => State::Executing(request@),
            AgentState::Done(answer) => State::Done(answer@),
        }
    }
}

/// What came back from outside.
pub enum Event {
    /// The model replied with this text.
    Reply(String),
    /// The filesystem answered the request.
    Filesystem(FsResponse),
}

/// The mathematical content of an [`Event`].
pub ghost enum Occurrence {
    Reply(Seq<char>),
    Filesystem(Response),
}

impl View for Event {
    type V = Occurrence;

    open spec fn view(&self) -> Occurrence {
        match self {
            Event::Reply(reply) => Occurrence::Reply(reply@),
            Event::Filesystem(response) => Occurrence::Filesystem(response@),
        }
    }
}

/// What the caller is to do next.
pub enum Action {
    /// Send all the messages to the model, and hand back its reply.
    CallModel,
    /// Perform this request, and hand back what the filesystem did.
    Perform(FsRequest),
    /// Stop: this is the final answer.
    Finish(String),
}

/// The mathematical content of an [`Action`].
pub ghost enum Step {
    CallModel,
    Perform(Request),
    Finish(Seq<char>),
}

impl View for Action {
    type V = Step;

    open spec fn view(&self) -> Step {
        match self {
            Action::CallModel => Step::CallModel,
            Action::Perform(request) => Step::Perform(request@),
            Action::Finish(answer) => Step::Finish(answer@),
        }
    }
}

/// A conversation with a model that works in a sandbox.
pub struct Agent {
    sandbox: Sandbox,
    messages: Vec<ChatMessage>,
    state: AgentState,
}

/// The mathematical content of an [`Agent`].
pub ghost struct Conversation {
    pub root: Seq<char>,
    pub messages: Seq<Message>,
    pub state: State,
}

impl View for Agent {
    type V = Conversation;

    closed spec fn view(&self) -> Conversation {
        Conversation {
            root: self.sandbox.root_text(),
            messages: messages_view(self.messages@),
            state: self.state@,
        }
    }
}

/// The system prompt for a workspace at `root`.
pub open spec fn system_prompt(root: Seq<char>) -> Seq<char> {
    PROMPT_HEAD@ + root + PROMPT_TOOLS@ + root + PROMPT_RULES@
}

/// The conversation at its start: the system prompt, then the task.
pub open spec fn opening(root: Seq<char>, task: Seq<char>) -> Conversation {
    Conversation {
        root,
        messages: seq![
            Message { role: Role::System, content: system_prompt(root) },
            Message { role: Role::User, content: task },
        ],
        state: State::AwaitingReply,
    }
}

/// The message that reports an outcome to the model.
pub open spec fn outcome_message(outcome: Outcome) -> Message {
    Message { role: Role::User, content: TOOL_RESULT_PREFIX@ + outcome_text(outcome) }
}

/// The two messages that record a tool call: the marker, then the reply
/// as the model gave it.
pub open spec fn call_record(reply: Seq<char>) -> Seq<Message> {
    seq![
        Message { role: Role::Assistant, content: TOOL_CALL_MARKER@ },
        Message { role: Role::Assistant, content: reply },
    ]
}

/// What the state by itself asks of the caller.
pub open spec fn pending_step(state: State) -> Step {
    match state {
        State::AwaitingReply => Step::CallModel,
        State::Executing(request) => Step::Perform(request),
        State::Done(answer) => Step::Finish(answer),
    }
}

/// The conversation after a reply, and what to do next, for a
/// conversation that awaits one.
///
/// The candidate is extracted from the reply and parsed. Where it is no
/// tool call, the reply is the final answer and nothing is recorded.
/// Where it is one, the call is recorded. A call that the sandbox
/// refuses is answered at once with its error outcome, and the model is
/// asked again; any other leads to its filesystem request.
pub open spec fn after_reply(c: Conversation, reply: Seq<char>) -> (Conversation, Step) {
    match parsed_intent(extracted(reply)) {
        Err(_) => (Conversation { state: State::Done(reply), ..c }, Step::Finish(reply)),
        Ok(intent) => {
            let recorded = c.messages + call_record(reply);
            match planned(c.root, intent) {
                Err(outcome) => (
                    Conversation {
                        messages: recorded.push(outcome_message(outcome)),
                        state: State::AwaitingReply,
                        ..c
                    },
                    Step::CallModel,
                ),
                Ok(request) => (
                    Conversation { messages: recorded, state: State::Executing(request), ..c },
                    Step::Perform(request),
                ),
            }
        },
    }
}

/// The conversation after the filesystem answered `request`, and what to
/// do next: the outcome is reported, and the model is asked again.
pub open spec fn after_response(c: Conversation, request: Request, response: Response) -> (
    Conversation,
    Step,
) {
    (
        Conversation {
            messages: c.messages.push(
                outcome_message(completed(request_path(request), response)),
            ),
            state: State::AwaitingReply,
            ..c
        },
        Step::CallModel,
    )
}

/// The transition: the conversation after an event, and what to do next.
/// An event that the state does not await changes nothing, and the
/// pending step is asked for again.
pub open spec fn transition(c: Conversation, event: Occurrence) -> (Conversation, Step) {
    match (c.state, event) {
        (State::AwaitingReply, Occurrence::Reply(reply)) => after_reply(c, reply),
        (State::Executing(request), Occurrence::Filesystem(response)) => after_response(
            c,
            request,
            response,
        ),
        _ => (c, pending_step(c.state)),
    }
}

impl Agent {
    /// A conversation in the sandbox at the default workspace root, opened
    /// with the system prompt and the user's task.
    pub fn new(initial_user_task: &str) -> (agent: Agent)
        ensures
            agent@ == opening(crate::sandbox::WORKSPACE_ROOT@, initial_user_task@),
    {
        Agent::with_sandbox(Sandbox::workspace(), initial_user_task)
    }

    /// A conversation in the given sandbox, opened with the system prompt
    /// and the user's task.
    pub fn with_sandbox(sandbox: Sandbox, initial_user_task: &str) -> (agent: Agent)
        ensures
            agent@ == opening(sandbox.root_text(), initial_user_task@),
    {
        let mut prompt = append_text(PROMPT_HEAD, sandbox.root());
        prompt.append(PROMPT_TOOLS);
        prompt.append(sandbox.root());
        prompt.append(PROMPT_RULES);
        let mut messages: Vec<ChatMessage> = Vec::new();
        messages.push(ChatMessage { role: Role::System, content: prompt });
        messages.push(ChatMessage { role: Role::User, content: String::from_str(initial_user_task) });
        let agent = Agent { sandbox, messages, state: AgentState::AwaitingReply };
        assert(agent@.messages =~= opening(sandbox.root_text(), initial_user_task@).messages);
        agent
    }

    /// The messages so far, oldest first: the context of the next call.
    pub fn messages(&self) -> (messages: &Vec<ChatMessage>)
        ensures
            messages_view(messages@) == self@.messages,
    {
        &self.messages
    }

    /// Where the run stands.
    pub fn state(&self) -> (state: &AgentState)
        ensures
            state@ == self@.state,
    {
        &self.state
    }

    /// The sandbox that the tools work in.
    pub fn sandbox(&self) -> (sandbox: &Sandbox)
        ensures
            sandbox.root_text() == self@.root,
    {
        &self.sandbox
    }

    /// What the state by itself asks of the caller: the first step of a
    /// run, and the step to repeat after an event that was not awaited.
    pub fn pending(&self) -> (action: Action)
        ensures
            action@ == pending_step(self@.state),
    {
        match &self.state {
            AgentState::AwaitingReply => Action::CallModel,
            AgentState::Executing(request) => Action::Perform(request.duplicate()),
            AgentState::Done(answer) => Action::Finish(answer.clone()),
        }
    }

    /// Appends a message.
    fn record(&mut self, role: Role, content: String)
        ensures
            final(self)@ == (Conversation {
                messages: old(self)@.messages.push(Message { role, content: content@ }),
                ..old(self)@
            }),
    {
        self.messages.push(ChatMessage { role, content });
        assert(final(self)@.messages =~= old(self)@.messages.push(
            Message { role, content: content@ },
        ));
    }

    /// Reports an outcome to the model, and awaits its next reply.
    fn report(&mut self, outcome: &ToolResult)
        ensures
            final(self)@ == (Conversation {
                messages: old(self)@.messages.push(outcome_message(outcome@)),
                state: State::AwaitingReply,
                ..old(self)@
            }),
    {
        let text = outcome.to_text();
        self.record(Role::User, append_text(TOOL_RESULT_PREFIX, text.as_str()));
        self.state = AgentState::AwaitingReply;
    }

    /// Takes a model reply, for a conversation that awaits one.
    fn receive_reply(&mut self, reply: String) -> (action: Action)
        requires
            old(self)@.state is AwaitingReply,
        ensures
            (final(self)@, action@) == after_reply(old(self)@, reply@),
    {
        let candidate = extract_json_from_markdown(reply.as_str());
        match ToolCall::parse(candidate.as_str()) {
            Err(_) => {
                let answer = reply.clone();
                self.state = AgentState::Done(reply);
                Action::Finish(answer)
            },
            Ok(call) => {
                self.record(Role::Assistant, String::from_str(TOOL_CALL_MARKER));
                self.record(Role::Assistant, reply);
                assert(self@.messages =~= old(self)@.messages + call_record(reply@));
                match plan_tool(&self.sandbox, call) {
                    Err(outcome) => {
                        self.report(&outcome);
                        Action::CallModel
                    },
                    Ok(request) => {
                        let copy = request.duplicate();
                        self.state = AgentState::Executing(request);
                        Action::Perform(copy)
                    },
                }
            },
        }
    }

    /// Takes what came back from outside, and says what to do next. The
    /// messages only grow: none is changed, reordered or removed.
    pub fn handle(&mut self, event: Event) -> (action: Action)
        ensures
            (final(self)@, action@) == transition(old(self)@, event@),
            old(self)@.messages.is_prefix_of(final(self)@.messages),
            final(self)@.root == old(self)@.root,
    {
        proof {
            lemma_transition_appends(old(self)@, event@);
        }
        match event {
            Event::Reply(reply) => {
                match &self.state {
                    AgentState::AwaitingReply => self.receive_reply(reply),
                    _ => self.pending(),
                }
            },
            Event::Filesystem(response) => {
                let outcome = match &self.state {
                    AgentState::Executing(request) => Some(complete_tool(request.path(), response)),
                    _ => None,
                };
                match outcome {
                    Some(outcome) => {
                        self.report(&outcome);
                        Action::CallModel
                    },
                    None => self.pending(),
                }
            },
        }
    }
}

/// The transition only appends messages and never changes the root.
pub proof fn lemma_transition_appends(c: Conversation, event: Occurrence)
    ensures
        c.messages.is_prefix_of(transition(c, event).0.messages),
        transition(c, event).0.root == c.root,
{
    let after = transition(c, event).0.messages;
    assert(after.subrange(0, c.messages.len() as int) =~= c.messages);
}

/// The run is over exactly when a reply holds no tool call: the reply is
/// then the final answer, and nothing is recorded.
pub proof fn lemma_final_answer(c: Conversation, reply: Seq<char>)
    requires
        c.state is AwaitingReply,
    ensures
        parsed_intent(extracted(reply)) is Err <==> transition(c, Occurrence::Reply(reply)).1
            is Finish,
        parsed_intent(extracted(reply)) is Err ==> transition(c, Occurrence::Reply(reply)) == (
            Conversation { state: State::Done(reply), ..c },
            Step::Finish(reply),
        ),
{
}

/// Once the run is over it stays over: every event leaves the
/// conversation as it is, and the answer is given again.
pub proof fn lemma_done_is_final(c: Conversation, event: Occurrence)
    requires
        c.state is Done,
    ensures
        transition(c, event) == (c, Step::Finish(c.state->Done_0)),
{
}

} // verus!

use std::collections::BTreeMap;
use workspace_agent::agent::{Action, Agent, AgentState, ChatMessage, Event, Role};
use workspace_agent::dispatch::{FsRequest, FsResponse};
use workspace_agent::outcome::DirEntry;
use workspace_agent::sandbox::{Sandbox, WORKSPACE_ROOT};

/// A file store in memory that answers requests as a filesystem would.
struct Store {
    files: BTreeMap<String, String>,
    dirs: Vec<String>,
}

fn store(root: &str) -> Store {
    Store { files: BTreeMap::new(), dirs: vec![root.to_string()] }
}

fn parent(path: &str) -> Option<&str> {
    path.rfind('/').map(|i| &path[..i])
}

fn perform(store: &mut Store, request: &FsRequest) -> FsResponse {
    match request {
        FsRequest::WriteFile { path, content } => {
            let mut above = parent(path);
            while let Some(dir) = above {
                if store.files.contains_key(dir) {
                    return FsResponse::CreateDirsFailed { cause: "File exists".to_string() };
                }
                if !dir.is_empty() && !store.dirs.iter().any(|d| d == dir) {
                    store.dirs.push(dir.to_string());
                }
                above = parent(dir);
            }
            if store.dirs.iter().any(|d| d == path) {
                return FsResponse::WriteFailed { cause: "Is a directory".to_string() };
            }
            store.files.insert(path.clone(), content.clone());
            FsResponse::Written
        }
        FsRequest::ReadFile { path } => match store.files.get(path) {
            Some(content) => FsResponse::Content(content.clone()),
            None => FsResponse::ReadFailed { cause: "No such file or directory".to_string() },
        },
        FsRequest::ListDir { path } => {
            if !store.dirs.iter().any(|d| d == path) {
                return FsResponse::ReadDirFailed { cause: "No such file or directory".to_string() };
            }
            let mut entries = Vec::new();
            for dir in store.dirs.iter() {
                if parent(dir) == Some(path.as_str()) {
                    let name = dir[path.len() + 1..].to_string();
                    entries.push(DirEntry { name, is_dir: true, is_file: false });
                }
            }
            for file in store.files.keys() {
                if parent(file) == Some(path.as_str()) {
                    let name = file[path.len() + 1..].to_string();
                    entries.push(DirEntry { name, is_dir: false, is_file: true });
                }
            }
            FsResponse::Listing(entries)
        }
    }
}

/// Runs the agent on scripted replies until it finishes; gives the answer.
fn run(agent: &mut Agent, store: &mut Store, replies: &[&str]) -> String {
    let mut next = 0;
    let mut action = agent.pending();
    loop {
        action = match action {
            Action::CallModel => {
                let reply = replies[next].to_string();
                next += 1;
                agent.handle(Event::Reply(reply))
            }
            Action::Perform(request) => {
                let response = perform(store, &request);
                agent.handle(Event::Filesystem(response))
            }
            Action::Finish(answer) => {
                assert_eq!(next, replies.len());
                return answer;
            }
        };
    }
}

fn contents(messages: &Vec<ChatMessage>) -> Vec<(Role, String)> {
    messages.iter().map(|m| (m.role, m.content.clone())).collect()
}

fn last_content(agent: &Agent) -> String {
    agent.messages().last().unwrap().content.clone()
}

#[test]
fn new_opens_with_system_prompt_and_task() {
    let agent = Agent::new("create a text file containing 'hello world'");
    let messages = agent.messages();
    assert_eq!(messages.len(), 2);
    assert_eq!(messages[0].role, Role::System);
    assert!(messages[0].content.starts_with(
        "You are a Rust coding agent operating inside a local filesystem workspace.\n\nWorkspace root (you MUST NOT leave this directory): `/home/pc2dev/ai_workspace`.\n\nYou cannot run shell commands"
    ));
    assert!(messages[0]
        .content
        .contains("- `path` is ALWAYS RELATIVE to the workspace root `/home/pc2dev/ai_workspace`.\n- NEVER include `..` in paths.\n"));
    assert!(messages[0].content.contains("   {\"tool\": \"list_dir\", \"path\": \"relative/path\"}\n"));
    assert!(messages[0].content.ends_with("- Keep code idiomatic and compilable\n"));
    assert_eq!(messages[0].content.matches(WORKSPACE_ROOT).count(), 2);
    assert_eq!(messages[1].role, Role::User);
    assert_eq!(messages[1].content, "create a text file containing 'hello world'");
    assert!(matches!(agent.state(), AgentState::AwaitingReply));
    assert!(matches!(agent.pending(), Action::CallModel));
    assert_eq!(agent.sandbox().root(), WORKSPACE_ROOT);
}

#[test]
fn with_sandbox_names_its_root_in_the_prompt() {
    let agent = Agent::with_sandbox(Sandbox::new("/tmp/w"), "task");
    assert_eq!(agent.messages()[0].content.matches("`/tmp/w`").count(), 2);
    assert_eq!(agent.sandbox().root(), "/tmp/w");
}

#[test]
fn end_to_end_write_then_final_answer() {
    let mut agent = Agent::new("create a text file containing 'hello world'");
    let mut files = store(WORKSPACE_ROOT);
    let call = "{\"tool\":\"write_file\",\"path\":\"greeting.txt\",\"content\":\"hello world\"}";
    let answer = run(&mut agent, &mut files, &[call, "I created greeting.txt."]);
    assert_eq!(answer, "I created greeting.txt.");
    assert_eq!(
        files.files.get("/home/pc2dev/ai_workspace/greeting.txt"),
        Some(&"hello world".to_string())
    );
    let messages = contents(agent.messages());
    assert_eq!(messages.len(), 5);
    assert_eq!(messages[2], (Role::Assistant, "TOOL CALL".to_string()));
    assert_eq!(messages[3], (Role::Assistant, call.to_string()));
    assert_eq!(
        messages[4],
        (Role::User, "TOOL_RESULT: {\"status\":\"ok\",\"result\":{\"written\":true}}".to_string())
    );
    match agent.state() {
        AgentState::Done(answer) => assert_eq!(answer, "I created greeting.txt."),
        _ => panic!("expected the run to be over"),
    }
}

#[test]
fn fenced_tool_call_is_recorded_as_the_model_gave_it() {
    let mut agent = Agent::with_sandbox(Sandbox::new("/ws"), "task");
    let reply = "```json\n{\"tool\":\"read_file\",\"path\":\"a.txt\"}\n```";
    match agent.handle(Event::Reply(reply.to_string())) {
        Action::Perform(FsRequest::ReadFile { path }) => assert_eq!(path, "/ws/a.txt"),
        _ => panic!("expected a read request"),
    }
    let messages = contents(agent.messages());
    assert_eq!(messages.len(), 4);
    assert_eq!(messages[3], (Role::Assistant, reply.to_string()));
    assert!(matches!(agent.state(), AgentState::Executing(FsRequest::ReadFile { .. })));
}

#[test]
fn write_then_read_round_trip() {
    for content in ["", "one line", "two\nlines\n", "  spaced  ", "é😀\t\"quoted\"\\"] {
        let mut agent = Agent::with_sandbox(Sandbox::new("/ws"), "task");
        let mut files = store("/ws");
        let write = workspace_agent::json::JsonValue::Object(vec![
            ("tool".to_string(), workspace_agent::json::JsonValue::text("write_file")),
            ("path".to_string(), workspace_agent::json::JsonValue::text("notes/p.txt")),
            ("content".to_string(), workspace_agent::json::JsonValue::text(content)),
        ])
        .to_text();
        let read = "{\"tool\":\"read_file\",\"path\":\"notes/p.txt\"}";
        run(&mut agent, &mut files, &[&write, read, "done"]);
        let expected = workspace_agent::outcome::ToolResult::Success {
            result: workspace_agent::outcome::ToolPayload::Content(content.to_string()),
        }
        .to_text();
        assert_eq!(last_content(&agent), format!("TOOL_RESULT: {}", expected));
        assert_eq!(files.files.get("/ws/notes/p.txt"), Some(&content.to_string()));
    }
}

#[test]
fn list_dir_tells_directory_from_file() {
    let mut agent = Agent::with_sandbox(Sandbox::new("/ws"), "task");
    let mut files = store("/ws");
    run(
        &mut agent,
        &mut files,
        &[
            "{\"tool\":\"write_file\",\"path\":\"top/d/inner.txt\",\"content\":\"x\"}",
            "{\"tool\":\"write_file\",\"path\":\"top/f\",\"content\":\"y\"}",
            "{\"tool\":\"list_dir\",\"path\":\"top\"}",
            "done",
        ],
    );
    assert_eq!(
        last_content(&agent),
        "TOOL_RESULT: {\"status\":\"ok\",\"result\":[\
{\"name\":\"d\",\"is_dir\":true,\"is_file\":false},\
{\"name\":\"f\",\"is_dir\":false,\"is_file\":true}]}"
    );
}

#[test]
fn write_below_missing_directories_creates_them() {
    let mut agent = Agent::with_sandbox(Sandbox::new("/ws"), "task");
    let mut files = store("/ws");
    run(
        &mut agent,
        &mut files,
        &["{\"tool\":\"write_file\",\"path\":\"sub/dir/file.txt\",\"content\":\"x\"}", "done"],
    );
    assert_eq!(last_content(&agent), "TOOL_RESULT: {\"status\":\"ok\",\"result\":{\"written\":true}}");
    assert!(files.dirs.iter().any(|d| d == "/ws/sub"));
    assert!(files.dirs.iter().any(|d| d == "/ws/sub/dir"));
    assert_eq!(files.files.get("/ws/sub/dir/file.txt"), Some(&"x".to_string()));
}

#[test]
fn sandbox_violation_is_reported_and_the_run_goes_on() {
    let mut agent = Agent::with_sandbox(Sandbox::new("/ws"), "task");
    let reply = "{\"tool\":\"read_file\",\"path\":\"a/../../etc/passwd\"}";
    assert!(matches!(agent.handle(Event::Reply(reply.to_string())), Action::CallModel));
    let messages = contents(agent.messages());
    assert_eq!(messages.len(), 5);
    assert_eq!(messages[2], (Role::Assistant, "TOOL CALL".to_string()));
    assert_eq!(messages[3], (Role::Assistant, reply.to_string()));
    assert_eq!(
        messages[4],
        (
            Role::User,
            "TOOL_RESULT: {\"status\":\"error\",\"message\":\"Path must not contain '..' components: a/../../etc/passwd\"}"
                .to_string()
        )
    );
    assert!(matches!(agent.state(), AgentState::AwaitingReply));
}

#[test]
fn filesystem_failure_is_reported_and_the_run_goes_on() {
    let mut agent = Agent::with_sandbox(Sandbox::new("/ws"), "task");
    let mut files = store("/ws");
    let answer = run(
        &mut agent,
        &mut files,
        &["{\"tool\":\"read_file\",\"path\":\"missing.txt\"}", "The file is missing."],
    );
    assert_eq!(answer, "The file is missing.");
    assert_eq!(
        last_content(&agent),
        "TOOL_RESULT: {\"status\":\"error\",\"message\":\"Failed to read /ws/missing.txt: No such file or directory\"}"
    );
}

#[test]
fn prose_ends_the_run_and_records_nothing() {
    let mut agent = Agent::new("task");
    match agent.handle(Event::Reply("All done.".to_string())) {
        Action::Finish(answer) => assert_eq!(answer, "All done."),
        _ => panic!("expected the final answer"),
    }
    assert_eq!(agent.messages().len(), 2);
    assert!(matches!(agent.state(), AgentState::Done(_)));
}

#[test]
fn unknown_tool_ends_the_run() {
    let mut agent = Agent::new("task");
    let reply = "{\"tool\":\"delete_file\",\"path\":\"a\"}";
    assert!(matches!(agent.handle(Event::Reply(reply.to_string())), Action::Finish(_)));
    assert_eq!(agent.messages().len(), 2);
}

#[test]
fn event_that_is_not_awaited_changes_nothing() {
    let mut agent = Agent::with_sandbox(Sandbox::new("/ws"), "task");
    assert!(matches!(agent.handle(Event::Filesystem(FsResponse::Written)), Action::CallModel));
    assert_eq!(agent.messages().len(), 2);
    let call = "{\"tool\":\"list_dir\",\"path\":\"a\"}";
    assert!(matches!(agent.handle(Event::Reply(call.to_string())), Action::Perform(_)));
    assert_eq!(agent.messages().len(), 4);
    match agent.handle(Event::Reply("again".to_string())) {
        Action::Perform(FsRequest::ListDir { path }) => assert_eq!(path, "/ws/a"),
        _ => panic!("expected the pending request"),
    }
    assert_eq!(agent.messages().len(), 4);
    agent.handle(Event::Filesystem(FsResponse::Listing(vec![])));
    assert_eq!(agent.messages().len(), 5);
    agent.handle(Event::Reply("bye".to_string()));
    match agent.handle(Event::Reply("more".to_string())) {
        Action::Finish(answer) => assert_eq!(answer, "bye"),
        _ => panic!("expected the final answer again"),
    }
    match agent.handle(Event::Filesystem(FsResponse::Written)) {
        Action::Finish(answer) => assert_eq!(answer, "bye"),
        _ => panic!("expected the final answer again"),
    }
    assert_eq!(agent.messages().len(), 5);
}

#[test]
fn messages_only_grow() {
    let mut agent = Agent::with_sandbox(Sandbox::new("/ws"), "task");
    let mut files = store("/ws");
    let replies = [
        "{\"tool\":\"write_file\",\"path\":\"a\",\"content\":\"1\"}",
        "{\"tool\":\"read_file\",\"path\":\"../a\"}",
        "{\"tool\":\"read_file\",\"path\":\"a\"}",
        "done",
    ];
    let mut seen = contents(agent.messages());
    let mut next = 0;
    let mut action = agent.pending();
    loop {
        action = match action {
            Action::CallModel => {
                next += 1;
                agent.handle(Event::Reply(replies[next - 1].to_string()))
            }
            Action::Perform(request) => {
                let response = perform(&mut files, &request);
                agent.handle(Event::Filesystem(response))
            }
            Action::Finish(_) => break,
        };
        let now = contents(agent.messages());
        assert!(now.len() >= seen.len());
        assert_eq!(&now[..seen.len()], &seen[..]);
        seen = now;
    }
    assert_eq!(seen.len(), 2 + 3 + 3 + 3);
}

use workspace_agent::dispatch::{complete_tool, plan_tool, FsRequest, FsResponse};
use workspace_agent::outcome::{DirEntry, ToolPayload, ToolResult};
use workspace_agent::sandbox::Sandbox;
use workspace_agent::tool::ToolCall;

fn error_message(outcome: ToolResult) -> String {
    match outcome {
        ToolResult::Error { message } => message,
        ToolResult::Success { .. } => panic!("expected an error"),
    }
}

#[test]
fn plan_resolves_the_path_of_each_tool() {
    let sandbox = Sandbox::new("/ws");
    match plan_tool(&sandbox, ToolCall::ListDir { path: "src".to_string() }) {
        Ok(FsRequest::ListDir { path }) => assert_eq!(path, "/ws/src"),
        _ => panic!("expected a listing request"),
    }
    match plan_tool(&sandbox, ToolCall::ReadFile { path: "a/b.txt".to_string() }) {
        Ok(FsRequest::ReadFile { path }) => assert_eq!(path, "/ws/a/b.txt"),
        _ => panic!("expected a read request"),
    }
    match plan_tool(
        &sandbox,
        ToolCall::WriteFile { path: "sub/dir/file.txt".to_string(), content: "x\ny".to_string() },
    ) {
        Ok(FsRequest::WriteFile { path, content }) => {
            assert_eq!(path, "/ws/sub/dir/file.txt");
            assert_eq!(content, "x\ny");
        }
        _ => panic!("expected a write request"),
    }
}

#[test]
fn plan_refuses_a_parent_component_for_each_tool() {
    let sandbox = Sandbox::new("/ws");
    let calls = vec![
        ToolCall::ListDir { path: "a/../b".to_string() },
        ToolCall::ReadFile { path: "a/../b".to_string() },
        ToolCall::WriteFile { path: "a/../b".to_string(), content: "x".to_string() },
    ];
    for call in calls {
        match plan_tool(&sandbox, call) {
            Err(ToolResult::Error { message }) => {
                assert_eq!(message, "Path must not contain '..' components: a/../b")
            }
            _ => panic!("expected a refusal"),
        }
    }
}

#[test]
fn request_path_and_duplicate() {
    let request = FsRequest::WriteFile { path: "/ws/a".to_string(), content: "c".to_string() };
    assert_eq!(request.path(), "/ws/a");
    match request.duplicate() {
        FsRequest::WriteFile { path, content } => {
            assert_eq!(path, "/ws/a");
            assert_eq!(content, "c");
        }
        _ => panic!("expected a write request"),
    }
    assert_eq!(FsRequest::ListDir { path: "/ws".to_string() }.path(), "/ws");
    assert_eq!(FsRequest::ReadFile { path: "/ws/r".to_string() }.duplicate().path(), "/ws/r");
}

#[test]
fn complete_carries_what_the_filesystem_gave() {
    match complete_tool("/ws/a", FsResponse::Content("text".to_string())) {
        ToolResult::Success { result: ToolPayload::Content(text) } => assert_eq!(text, "text"),
        _ => panic!("expected content"),
    }
    match complete_tool("/ws/a", FsResponse::Written) {
        ToolResult::Success { result: ToolPayload::Written } => {}
        _ => panic!("expected a write confirmation"),
    }
    let entries = vec![
        DirEntry { name: "d".to_string(), is_dir: true, is_file: false },
        DirEntry { name: "f".to_string(), is_dir: false, is_file: true },
    ];
    match complete_tool("/ws", FsResponse::Listing(entries)) {
        ToolResult::Success { result: ToolPayload::Listing(entries) } => {
            assert_eq!(entries.len(), 2);
            assert_eq!(entries[0].name, "d");
            assert!(entries[0].is_dir && !entries[0].is_file);
            assert_eq!(entries[1].name, "f");
            assert!(!entries[1].is_dir && entries[1].is_file);
        }
        _ => panic!("expected a listing"),
    }
}

#[test]
fn complete_words_each_failure() {
    let cause = "No such file or directory (os error 2)".to_string();
    assert_eq!(
        error_message(complete_tool("/ws/d", FsResponse::ReadDirFailed { cause: cause.clone() })),
        "read_dir failed on /ws/d: No such file or directory (os error 2)"
    );
    assert_eq!(
        error_message(complete_tool("/ws/d", FsResponse::EntryFailed { cause: cause.clone() })),
        "No such file or directory (os error 2)"
    );
    assert_eq!(
        error_message(complete_tool("/ws/f", FsResponse::ReadFailed { cause: cause.clone() })),
        "Failed to read /ws/f: No such file or directory (os error 2)"
    );
    assert_eq!(
        error_message(complete_tool(
            "/ws/a/f",
            FsResponse::CreateDirsFailed { cause: "Permission denied (os error 13)".to_string() }
        )),
        "Failed to create dirs for /ws/a/f: Permission denied (os error 13)"
    );
    assert_eq!(
        error_message(complete_tool(
            "/ws/a/f",
            FsResponse::WriteFailed { cause: "Is a directory (os error 21)".to_string() }
        )),
        "Failed to write /ws/a/f: Is a directory (os error 21)"
    );
}

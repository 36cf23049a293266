use filejack::mcp::{method_from_name, tool_from_name, Method, Tool};
use filejack::rate_limit::{effective_rate, MODERATE_RATE, PERMISSIVE_RATE, STRICT_RATE};
use filejack::{AccessPolicy, FileJackError, McpServer};

#[test]
fn server_keeps_its_policy() {
    let server = McpServer::new(AccessPolicy::read_only("/ws".to_string()));
    assert!(server.policy().read_only);
    assert_eq!(server.policy().allowed_paths, vec!["/ws".to_string()]);
}

#[test]
fn tool_names() {
    assert_eq!(tool_from_name("read_file").unwrap(), Tool::ReadFile);
    assert_eq!(tool_from_name("write_file").unwrap(), Tool::WriteFile);
    match tool_from_name("invalid_tool") {
        Err(FileJackError::ToolNotFound(name)) => assert_eq!(name, "invalid_tool"),
        other => panic!("unexpected {:?}", other),
    }
}

#[test]
fn method_names() {
    assert_eq!(method_from_name("initialize"), Method::Initialize);
    assert_eq!(method_from_name("tools/list"), Method::ToolsList);
    assert_eq!(method_from_name("tools/call"), Method::ToolsCall);
    assert_eq!(method_from_name("unknown/method"), Method::Unknown);
}

#[test]
fn limiter_rates() {
    assert_eq!(effective_rate(0), 10);
    assert_eq!(effective_rate(2), 2);
    assert_eq!((PERMISSIVE_RATE, MODERATE_RATE, STRICT_RATE), (1000, 100, 10));
}

#[test]
fn more_tool_names() {
    assert_eq!(tool_from_name("file_exists").unwrap(), Tool::FileExists);
    assert_eq!(tool_from_name("delete_file").unwrap(), Tool::DeleteFile);
    assert_eq!(tool_from_name("move_file").unwrap(), Tool::MoveFile);
    assert_eq!(tool_from_name("copy_file").unwrap(), Tool::CopyFile);
    assert_eq!(tool_from_name("list_directory").unwrap(), Tool::ListDirectory);
    assert_eq!(tool_from_name("search_files").unwrap(), Tool::SearchFiles);
    assert!(tool_from_name("READ_FILE").is_err());
    assert!(tool_from_name("").is_err());
}

#[test]
fn directory_and_metadata_tool_names() {
    assert_eq!(tool_from_name("append_file").unwrap(), Tool::AppendFile);
    assert_eq!(tool_from_name("get_metadata").unwrap(), Tool::GetMetadata);
    assert_eq!(tool_from_name("create_directory").unwrap(), Tool::CreateDirectory);
    assert_eq!(tool_from_name("remove_directory").unwrap(), Tool::RemoveDirectory);
}

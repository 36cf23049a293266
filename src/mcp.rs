use vstd::prelude::*;
use crate::access_control::AccessPolicy;
use crate::error::{FileJackError, Result};

verus! {

/// JSON-RPC error code of a request that is not valid JSON.
pub const PARSE_ERROR: i32 = -32700;

/// JSON-RPC error code of an unknown method.
pub const METHOD_NOT_FOUND: i32 = -32601;

/// JSON-RPC error code of a tool call that failed.
pub const TOOL_ERROR: i32 = -32000;

/// The tools a server offers.
#[derive(Debug, Clone, Copy, PartialEq, Eq)]
pub enum Tool {
    ReadFile,
    WriteFile,
    FileExists,
    DeleteFile,
    MoveFile,
    CopyFile,
    ListDirectory,
    SearchFiles,
    AppendFile,
    GetMetadata,
    CreateDirectory,
    RemoveDirectory,
}

/// The JSON-RPC methods a server answers.
#[derive(Debug, Clone, Copy, PartialEq, Eq)]
pub enum Method {
    Initialize,
    ToolsList,
    ToolsCall,
    /// Any other method, answered with `METHOD_NOT_FOUND`.
    Unknown,
}

pub open spec fn spec_tool(name: Seq<char>) -> Option<Tool> {
    if name == "read_file"@ {
        Some(Tool::ReadFile)
    } else if name == "write_file"@ {
        Some(Tool::WriteFile)
    } else if name == "file_exists"@ {
        Some(Tool::FileExists)
    } else if name == "delete_file"@ {
        Some(Tool::DeleteFile)
    } else if name == "move_file"@ {
        Some(Tool::MoveFile)
    } else if name == "copy_file"@ {
        Some(Tool::CopyFile)
    } else if name == "list_directory"@ {
        Some(Tool::ListDirectory)
    } else if name == "search_files"@ {
        Some(Tool::SearchFiles)
    } else if name == "append_file"@ {
        Some(Tool::AppendFile)
    } else if name == "get_metadata"@ {
        Some(Tool::GetMetadata)
    } else if name == "create_directory"@ {
        Some(Tool::CreateDirectory)
    } else if name == "remove_directory"@ {
        Some(Tool::RemoveDirectory)
    } else {
        None
    }
}

pub open spec fn spec_method(name: Seq<char>) -> Method {
    if name == "initialize"@ {
        Method::Initialize
    } else if name == "tools/list"@ {
        Method::ToolsList
    } else if name == "tools/call"@ {
        Method::ToolsCall
    } else {
        Method::Unknown
    }
}

fn same_text(a: &str, b: &str) -> (r: bool)
    ensures
        r == (a@ == b@),
{
    String::from_str(a) == String::from_str(b)
}

/// The tool of that name; `ToolNotFound` for any other name.
pub fn tool_from_name(name: &str) -> (r: Result<Tool>)
    ensures
        r matches Ok(t) ==> spec_tool(name@) == Some(t),
        r matches Err(e) ==> spec_tool(name@) is None && e is ToolNotFound && e->ToolNotFound_0@ == name@,
        spec_tool(name@) is Some ==> r is Ok,
{
    if same_text(name, "read_file") {
        Ok(Tool::ReadFile)
    } else if same_text(name, "write_file") {
        Ok(Tool::WriteFile)
    } else if same_text(name, "file_exists") {
        Ok(Tool::FileExists)
    } else if same_text(name, "delete_file") {
        Ok(Tool::DeleteFile)
    } else if same_text(name, "move_file") {
        Ok(Tool::MoveFile)
    } else if same_text(name, "copy_file") {
        Ok(Tool::CopyFile)
    } else if same_text(name, "list_directory") {
        Ok(Tool::ListDirectory)
    } else if same_text(name, "search_files") {
        Ok(Tool::SearchFiles)
    } else if same_text(name, "append_file") {
        Ok(Tool::AppendFile)
    } else if same_text(name, "get_metadata") {
        Ok(Tool::GetMetadata)
    } else if same_text(name, "create_directory") {
        Ok(Tool::CreateDirectory)
    } else if same_text(name, "remove_directory") {
        Ok(Tool::RemoveDirectory)
    } else {
        Err(FileJackError::ToolNotFound(String::from_str(name)))
    }
}

/// The method of that name.
pub fn method_from_name(name: &str) -> (r: Method)
    ensures
        r == spec_method(name@),
{
    if same_text(name, "initialize") {
        Method::Initialize
    } else if same_text(name, "tools/list") {
        Method::ToolsList
    } else if same_text(name, "tools/call") {
        Method::ToolsCall
    } else {
        Method::Unknown
    }
}

/// A server for file operations under one access policy. Writes create
/// missing parent directories.
#[derive(Debug, Clone)]
pub struct McpServer {
    policy: AccessPolicy,
}

impl McpServer {
    /// A server that applies `policy` to every operation.
    pub fn new(policy: AccessPolicy) -> (r: Self)
        ensures
            r.spec_policy() == policy,
    {
        McpServer { policy }
    }

    pub closed spec fn spec_policy(&self) -> AccessPolicy {
        self.policy
    }

    /// The policy the server applies.
    pub fn policy(&self) -> (r: &AccessPolicy)
        ensures
            *r == self.spec_policy(),
    {
        &self.policy
    }

}

} // verus!

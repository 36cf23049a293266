use vstd::prelude::*;

verus! {

// The arguments of each tool, as plain values. Their wire form is JSON,
// read and written where requests are served.

/// File read parameters.
#[derive(Debug, Clone)]
pub struct ReadFileParams {
    pub path: String,
}

/// File write parameters.
#[derive(Debug, Clone)]
pub struct WriteFileParams {
    pub path: String,
    pub content: String,
}

/// List directory parameters.
#[derive(Debug, Clone)]
pub struct ListDirectoryParams {
    pub path: String,
    pub recursive: bool,
}

/// Get metadata parameters.
#[derive(Debug, Clone)]
pub struct GetMetadataParams {
    pub path: String,
}

/// Delete file parameters.
#[derive(Debug, Clone)]
pub struct DeleteFileParams {
    pub path: String,
}

/// Move file parameters.
#[derive(Debug, Clone)]
pub struct MoveFileParams {
    pub from: String,
    pub to: String,
}

/// Copy file parameters.
#[derive(Debug, Clone)]
pub struct CopyFileParams {
    pub from: String,
    pub to: String,
}

/// Append file parameters.
#[derive(Debug, Clone)]
pub struct AppendFileParams {
    pub path: String,
    pub content: String,
}

/// File exists parameters.
#[derive(Debug, Clone)]
pub struct FileExistsParams {
    pub path: String,
}

/// Create directory parameters.
#[derive(Debug, Clone)]
pub struct CreateDirectoryParams {
    pub path: String,
    pub recursive: bool,
}

/// Remove directory parameters.
#[derive(Debug, Clone)]
pub struct RemoveDirectoryParams {
    pub path: String,
    pub recursive: bool,
}

/// Read lines parameters.
#[derive(Debug, Clone)]
pub struct ReadLinesParams {
    pub path: String,
    pub start_line: Option<usize>,
    pub end_line: Option<usize>,
    pub tail: Option<usize>,
}

/// Search files parameters.
#[derive(Debug, Clone)]
pub struct SearchFilesParams {
    pub path: String,
    pub pattern: String,
    pub recursive: bool,
    pub max_results: Option<usize>,
}

/// Grep file parameters.
#[derive(Debug, Clone)]
pub struct GrepFileParams {
    pub path: String,
    pub pattern: String,
    pub max_matches: Option<usize>,
    pub context_lines: Option<usize>,
}

/// One matching line of a content search, with the lines around it.
#[derive(Debug, Clone)]
pub struct GrepMatch {
    pub line_number: usize,
    pub line_content: String,
    pub context_before: Vec<String>,
    pub context_after: Vec<String>,
}

} // verus!

use vstd::prelude::*;

verus! {

/// Errors that can occur in FileJack operations.
///
/// Each variant carries a human-readable detail; the variant itself is the
/// error's kind, which is what callers and contracts distinguish.
#[derive(Debug, Clone)]
pub enum FileJackError {
    /// An operating-system failure, described in words.
    Io(String),
    /// A malformed JSON document, described in words.
    Json(String),
    FileNotFound(String),
    PermissionDenied(String),
    InvalidPath(String),
    ProtocolError(String),
    ToolNotFound(String),
    InvalidParameters(String),
}

/// Result type for FileJack operations.
pub type Result<T> = std::result::Result<T, FileJackError>;

impl FileJackError {
    /// The words that introduce an error of this kind.
    pub open spec fn spec_prefix(&self) -> Seq<char> {
        match self {
            FileJackError::Io(_) => "IO error: "@,
            FileJackError::Json(_) => "JSON parsing error: "@,
            FileJackError::FileNotFound(_) => "File not found: "@,
            FileJackError::PermissionDenied(_) => "Permission denied: "@,
            FileJackError::InvalidPath(_) => "Invalid path: "@,
            FileJackError::ProtocolError(_) => "Protocol error: "@,
            FileJackError::ToolNotFound(_) => "Tool not found: "@,
            FileJackError::InvalidParameters(_) => "Invalid parameters: "@,
        }
    }

    /// The detail carried by the error.
    pub open spec fn spec_detail(&self) -> Seq<char> {
        match self {
            FileJackError::Io(s) => s@,
            FileJackError::Json(s) => s@,
            FileJackError::FileNotFound(s) => s@,
            FileJackError::PermissionDenied(s) => s@,
            FileJackError::InvalidPath(s) => s@,
            FileJackError::ProtocolError(s) => s@,
            FileJackError::ToolNotFound(s) => s@,
            FileJackError::InvalidParameters(s) => s@,
        }
    }

    /// The detail carried by the error.
    pub fn detail(&self) -> (r: &String)
        ensures
            r@ == self.spec_detail(),
    {
        match self {
            FileJackError::Io(s) => s,
            FileJackError::Json(s) => s,
            FileJackError::FileNotFound(s) => s,
            FileJackError::PermissionDenied(s) => s,
            FileJackError::InvalidPath(s) => s,
            FileJackError::ProtocolError(s) => s,
            FileJackError::ToolNotFound(s) => s,
            FileJackError::InvalidParameters(s) => s,
        }
    }

    /// The message shown to a user: the kind's introduction followed by the
    /// detail, as in `File not found: notes.txt`.
    pub fn to_string(&self) -> (r: String)
        ensures
            r@ == self.spec_prefix() + self.spec_detail(),
    {
        let prefix = match self {
            FileJackError::Io(_) => "IO error: ",
            FileJackError::Json(_) => "JSON parsing error: ",
            FileJackError::FileNotFound(_) => "File not found: ",
            FileJackError::PermissionDenied(_) => "Permission denied: ",
            FileJackError::InvalidPath(_) => "Invalid path: ",
            FileJackError::ProtocolError(_) => "Protocol error: ",
            FileJackError::ToolNotFound(_) => "Tool not found: ",
            FileJackError::InvalidParameters(_) => "Invalid parameters: ",
        };
        let mut out = String::from_str(prefix);
        out.append(self.detail().as_str());
        out
    }
}

} // verus!

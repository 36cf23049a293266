use filejack::FileJackError;

#[test]
fn test_error_display() {
    let err = FileJackError::FileNotFound("test.txt".to_string());
    assert_eq!(err.to_string(), "File not found: test.txt");
}

#[test]
fn test_error_types() {
    let errors = vec![
        FileJackError::FileNotFound("test".to_string()),
        FileJackError::PermissionDenied("test".to_string()),
        FileJackError::InvalidPath("test".to_string()),
        FileJackError::ProtocolError("test".to_string()),
        FileJackError::ToolNotFound("test".to_string()),
        FileJackError::InvalidParameters("test".to_string()),
    ];

    for err in errors {
        assert!(!err.to_string().is_empty());
    }
}

#[test]
fn error_messages_by_kind() {
    assert_eq!(FileJackError::Io("disk".to_string()).to_string(), "IO error: disk");
    assert_eq!(FileJackError::Json("eof".to_string()).to_string(), "JSON parsing error: eof");
    assert_eq!(FileJackError::PermissionDenied("x".to_string()).to_string(), "Permission denied: x");
    assert_eq!(FileJackError::InvalidPath("x".to_string()).to_string(), "Invalid path: x");
    assert_eq!(FileJackError::ProtocolError("x".to_string()).to_string(), "Protocol error: x");
    assert_eq!(FileJackError::ToolNotFound("x".to_string()).to_string(), "Tool not found: x");
    assert_eq!(FileJackError::InvalidParameters("x".to_string()).to_string(), "Invalid parameters: x");
    assert_eq!(FileJackError::InvalidPath("why".to_string()).detail(), "why");
}

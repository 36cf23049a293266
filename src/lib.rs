//! Policy-checked filesystem access: the access policy, path validation
//! and the admission decisions made around each file operation.

pub mod access_control;
pub mod accessor;
pub mod config;
pub mod decimal;
pub mod error;
pub mod file_ops;
pub mod listing;
pub mod mcp;
pub mod path;
pub mod probe;
pub mod protocol;
pub mod rate_limit;
pub mod search;

pub use access_control::AccessPolicy;
pub use config::{Config, ServerConfig};
pub use error::{FileJackError, Result};
pub use file_ops::{FileReader, FileWriter};
pub use mcp::McpServer;

use vstd::prelude::*;
use crate::access_control::AccessPolicy;
use crate::path::texts;

verus! {

/// Configuration of a FileJack server.
#[derive(Debug, Clone)]
pub struct Config {
    /// Access control policy.
    pub access_policy: AccessPolicy,
    /// Server settings.
    pub server: ServerConfig,
}

/// Name and version that the server reports.
#[derive(Debug, Clone)]
pub struct ServerConfig {
    pub name: String,
    pub version: String,
}

/// The name a server reports unless configured otherwise.
pub open spec fn spec_default_name() -> Seq<char> {
    seq!['F', 'i', 'l', 'e', 'J', 'a', 'c', 'k']
}

/// The version a server reports unless configured otherwise.
pub open spec fn spec_default_version() -> Seq<char> {
    seq!['0', '.', '1', '.', '0']
}

/// The name a server reports unless configured otherwise: `FileJack`.
pub fn default_server_name() -> (r: String)
    ensures
        r@ == spec_default_name(),
{
    proof {
        reveal_strlit("FileJack");
    }
    String::from_str("FileJack")
}

/// The version of this library, which a server reports unless configured
/// otherwise.
pub fn default_server_version() -> (r: String)
    ensures
        r@ == spec_default_version(),
{
    proof {
        reveal_strlit("0.1.0");
    }
    String::from_str("0.1.0")
}

impl Default for ServerConfig {
    fn default() -> (r: Self)
        ensures
            r.name@ == spec_default_name(),
            r.version@ == spec_default_version(),
    {
        ServerConfig { name: default_server_name(), version: default_server_version() }
    }
}

impl Config {
    /// The restricted policy for one directory, with default server
    /// settings.
    pub fn default_restricted(allowed_path: String) -> (r: Self)
        ensures
            texts(r.access_policy.allowed_paths@) == seq![allowed_path@],
            r.access_policy.denied_paths@.len() == 0,
            r.access_policy.allowed_extensions@.len() == 0,
            r.access_policy.denied_extensions@.len() == 0,
            r.access_policy.max_file_size == crate::access_control::RESTRICTED_MAX_FILE_SIZE,
            !r.access_policy.allow_symlinks,
            !r.access_policy.allow_hidden_files,
            !r.access_policy.read_only,
            r.server.name@ == spec_default_name(),
            r.server.version@ == spec_default_version(),
    {
        Config { access_policy: AccessPolicy::restricted(allowed_path), server: ServerConfig::default() }
    }

    /// The permissive policy, with default server settings.
    pub fn permissive() -> (r: Self)
        ensures
            r.access_policy.allowed_paths@.len() == 0,
            r.access_policy.denied_paths@.len() == 0,
            r.access_policy.allowed_extensions@.len() == 0,
            r.access_policy.denied_extensions@.len() == 0,
            r.access_policy.max_file_size == 0,
            r.access_policy.allow_symlinks,
            r.access_policy.allow_hidden_files,
            !r.access_policy.read_only,
            r.server.name@ == spec_default_name(),
            r.server.version@ == spec_default_version(),
    {
        Config { access_policy: AccessPolicy::permissive(), server: ServerConfig::default() }
    }

    /// The read-only policy for one directory, with default server
    /// settings.
    pub fn read_only(allowed_path: String) -> (r: Self)
        ensures
            texts(r.access_policy.allowed_paths@) == seq![allowed_path@],
            r.access_policy.denied_paths@.len() == 0,
            r.access_policy.allowed_extensions@.len() == 0,
            r.access_policy.denied_extensions@.len() == 0,
            r.access_policy.max_file_size == crate::access_control::RESTRICTED_MAX_FILE_SIZE,
            !r.access_policy.allow_symlinks,
            !r.access_policy.allow_hidden_files,
            r.access_policy.read_only,
            r.server.name@ == spec_default_name(),
            r.server.version@ == spec_default_version(),
    {
        Config { access_policy: AccessPolicy::read_only(allowed_path), server: ServerConfig::default() }
    }
}

} // verus!

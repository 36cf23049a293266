use filejack::config::{default_server_name, default_server_version};
use filejack::{AccessPolicy, Config, ServerConfig};
use tempfile::TempDir;

#[test]
fn test_default_server_config() {
    let config = ServerConfig::default();
    assert_eq!(config.name, "FileJack");
    assert!(!config.version.is_empty());
}

#[test]
fn test_config_default_restricted() {
    let temp_dir = TempDir::new().unwrap();
    let config = Config::default_restricted(temp_dir.path().to_str().unwrap().to_string());

    assert_eq!(config.access_policy.allowed_paths.len(), 1);
    assert!(!config.access_policy.read_only);
}

#[test]
fn test_config_permissive() {
    let config = Config::permissive();

    assert!(config.access_policy.allow_symlinks);
    assert!(config.access_policy.allow_hidden_files);
}

#[test]
fn test_config_read_only() {
    let temp_dir = TempDir::new().unwrap();
    let config = Config::read_only(temp_dir.path().to_str().unwrap().to_string());

    assert!(config.access_policy.read_only);
}

#[test]
fn test_config_with_custom_settings() {
    let temp_dir = TempDir::new().unwrap();
    let mut policy = AccessPolicy::restricted(temp_dir.path().to_str().unwrap().to_string());
    policy.allowed_extensions = vec!["txt".to_string(), "json".to_string()];
    policy.max_file_size = 5 * 1024 * 1024; // 5MB

    let config = Config {
        access_policy: policy,
        server: ServerConfig::default(),
    };

    assert_eq!(config.access_policy.allowed_extensions.len(), 2);
    assert_eq!(config.access_policy.max_file_size, 5 * 1024 * 1024);
}

#[test]
fn default_server_identity() {
    assert_eq!(default_server_name(), "FileJack");
    assert_eq!(default_server_version(), "0.1.0");
}

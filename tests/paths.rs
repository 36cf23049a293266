use filejack::path::{
    components_of, extension_of, file_name_of, is_absolute_path, is_hidden_path, is_same_path,
    is_under_path, join_components, name_extension_of, parent_of,
};

fn strings(items: &[&str]) -> Vec<String> {
    items.iter().map(|s| s.to_string()).collect()
}

#[test]
fn components_drop_empty_and_dot_pieces() {
    assert_eq!(components_of("/a//b/./c/"), strings(&["a", "b", "c"]));
    assert_eq!(components_of("./a/../b"), strings(&["a", "..", "b"]));
    assert_eq!(components_of("/"), Vec::<String>::new());
    assert_eq!(components_of(""), Vec::<String>::new());
}

#[test]
fn absolute_paths() {
    assert!(is_absolute_path("/a"));
    assert!(!is_absolute_path("a/b"));
    assert!(!is_absolute_path(""));
}

#[test]
fn containment_by_components() {
    assert!(is_under_path("/ws/a/b.txt", "/ws"));
    assert!(is_under_path("/ws", "/ws/"));
    assert!(!is_under_path("/wsx/a", "/ws"));
    assert!(!is_under_path("/ws", "/ws/a"));
    assert!(!is_under_path("ws/a", "/ws"));
    assert!(is_under_path("/anything", "/"));
}

#[test]
fn same_path_ignores_redundant_separators() {
    assert!(is_same_path("/ws//a.txt", "/ws/a.txt"));
    assert!(!is_same_path("/ws/a.txt", "/ws/b.txt"));
    assert!(!is_same_path("ws/a.txt", "/ws/a.txt"));
}

#[test]
fn file_names_and_extensions() {
    assert_eq!(file_name_of("/ws/a.txt"), Some("a.txt".to_string()));
    assert_eq!(file_name_of("/ws/.."), None);
    assert_eq!(file_name_of("/"), None);
    assert_eq!(extension_of("/ws/a.tar.gz"), Some("gz".to_string()));
    assert_eq!(extension_of("/ws/.bashrc"), None);
    assert_eq!(extension_of("/ws/.hidden.txt"), Some("txt".to_string()));
    assert_eq!(extension_of("/ws/Makefile"), None);
    assert_eq!(name_extension_of("a."), Some(String::new()));
    assert!(is_hidden_path("/ws/.env"));
    assert!(!is_hidden_path("/ws/env"));
}

#[test]
fn parents_and_joins() {
    assert_eq!(parent_of("/a/b/c.txt"), Some("/a/b".to_string()));
    assert_eq!(parent_of("/a"), Some("/".to_string()));
    assert_eq!(parent_of("a"), Some(String::new()));
    assert_eq!(parent_of("/"), None);
    assert_eq!(parent_of(""), None);
    let cs = strings(&["x", "y", "z"]);
    assert_eq!(join_components(true, &cs, 2), "/x/y");
    assert_eq!(join_components(false, &cs, 3), "x/y/z");
    assert_eq!(join_components(false, &cs, 0), "");
}

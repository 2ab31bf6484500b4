use prism::paths::{absolute_input, ancestors_of, find_git_root, is_git_repository, marker_path, parent_dir, Cli};
use prism::text::{find_last, join_path, same_text};

#[test]
fn test_find_git_root_current_dir() {
    let current = "/home/user/project/src";
    let cands = ancestors_of(current);
    let marks: Vec<bool> = cands.iter().map(|c| c == "/home/user/project").collect();
    let result = find_git_root(current, &marks);
    assert!(result.is_some());
}

#[test]
fn ancestors_walk_to_root() {
    assert_eq!(ancestors_of("/a/b/c"), vec!["/a/b/c", "/a/b", "/a", "/"]);
    assert_eq!(ancestors_of("/"), vec!["/"]);
    assert_eq!(ancestors_of("/repo"), vec!["/repo", "/"]);
}

#[test]
fn parent_of_paths() {
    assert_eq!(parent_dir("/a/b"), Some("/a".to_string()));
    assert_eq!(parent_dir("/a"), Some("/".to_string()));
    assert_eq!(parent_dir("/"), None);
    assert_eq!(parent_dir("relative"), None);
}

#[test]
fn nearest_marked_ancestor_wins() {
    let marks = vec![false, true, false, true];
    assert_eq!(find_git_root("/a/b/c", &marks), Some("/a/b".to_string()));
    let marks = vec![true, true, false, true];
    assert_eq!(find_git_root("/a/b/c", &marks), Some("/a/b/c".to_string()));
    let marks = vec![false, false, false, true];
    assert_eq!(find_git_root("/a/b/c", &marks), Some("/".to_string()));
    let none = vec![false, false, false, false];
    assert_eq!(find_git_root("/a/b/c", &none), None);
    assert!(!is_git_repository("/a/b/c", &none));
    assert!(is_git_repository("/a/b/c", &vec![false, true, false, false]));
}

#[test]
fn marker_inside_directory() {
    assert_eq!(marker_path("/repo"), "/repo/.git");
    assert_eq!(marker_path("/"), "/.git");
}

#[test]
fn absolute_input_joins_relative() {
    assert_eq!(absolute_input("/x", None), Some("/x".to_string()));
    assert_eq!(absolute_input("x", Some("/home/u".to_string())), Some("/home/u/x".to_string()));
    assert_eq!(absolute_input("./x", Some("/home/u/".to_string())), Some("/home/u/./x".to_string()));
    assert_eq!(absolute_input("x", None), None);
}

#[test]
fn cli_takes_first_argument() {
    let args = vec!["prism".to_string(), "/repo".to_string()];
    assert_eq!(Cli::parse_args(&args).path.as_deref(), Some("/repo"));
    let args = vec!["prism".to_string()];
    assert_eq!(Cli::parse_args(&args).path, None);
}

#[test]
fn cli_repo_path_made_absolute() {
    let cli = Cli { path: Some("proj".to_string()) };
    assert_eq!(cli.get_repo_path(Some("/home/u".to_string())), Some("/home/u/proj".to_string()));
    assert_eq!(cli.get_repo_path(None), Some("proj".to_string()));
    let cli = Cli { path: Some("/abs".to_string()) };
    assert_eq!(cli.get_repo_path(Some("/home/u".to_string())), Some("/abs".to_string()));
    let cli = Cli { path: None };
    assert_eq!(cli.get_repo_path(Some("/home/u".to_string())), None);
}

#[test]
fn text_helpers() {
    assert!(same_text("abc", "abc"));
    assert!(!same_text("abc", "abd"));
    assert!(!same_text("abc", "ab"));
    assert_eq!(find_last("a/b/c", '/'), Some(3));
    assert_eq!(find_last("abc", '/'), None);
    assert_eq!(join_path("", "x"), "x");
    assert_eq!(join_path("/a", "/b"), "/b");
}

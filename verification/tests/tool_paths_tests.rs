use projectying::tool_paths::{
    join_path, normalize_lexical_path, path_starts_with, resolve_home_alias_path, resolve_patch_path, resolve_tool_file_path,
    resolve_projectying_relative_path, ToolPathError,
};

const ROOT: &str = "/h/AItermux/projectying";

#[test]
fn normalize_lexical_path_works_out_dots() {
    assert_eq!(normalize_lexical_path("/a/./b/../c"), "/a/c");
    assert_eq!(normalize_lexical_path("a/../../b"), "../b");
    assert_eq!(normalize_lexical_path("/.."), "/");
    assert_eq!(normalize_lexical_path("a//b/"), "a/b");
    assert_eq!(normalize_lexical_path(""), ".");
    assert_eq!(normalize_lexical_path("./"), ".");
}

#[test]
fn normalize_lexical_path_parent_of_parent_cancels() {
    // A `..` after a kept `..` takes it away, as the platform's path type does.
    assert_eq!(normalize_lexical_path("../.."), ".");
    assert_eq!(normalize_lexical_path("../../x"), "x");
}

#[test]
fn join_path_follows_path_push() {
    assert_eq!(join_path("/r", "x"), "/r/x");
    assert_eq!(join_path("/r/", "x"), "/r/x");
    assert_eq!(join_path("/r", "/y"), "/y");
    assert_eq!(join_path("/r", ""), "/r/");
    assert_eq!(join_path("", "x"), "x");
}

#[test]
fn project_names_resolve_under_root() {
    assert_eq!(
        resolve_projectying_relative_path("./AItermux/projectying/src/main.rs", ROOT),
        Some("/h/AItermux/projectying/src/main.rs".to_string())
    );
    assert_eq!(resolve_projectying_relative_path(" projectying ", ROOT), Some(ROOT.to_string()));
    assert_eq!(
        resolve_projectying_relative_path("home/AItermux/projectying/a", ROOT),
        Some("/h/AItermux/projectying/a".to_string())
    );
    assert_eq!(
        resolve_projectying_relative_path("/h/AItermux/projectying/x", ROOT),
        Some("/h/AItermux/projectying/x".to_string())
    );
    assert_eq!(resolve_projectying_relative_path("projectyingx/a", ROOT), None);
    assert_eq!(resolve_projectying_relative_path("other", ROOT), None);
}

#[test]
fn home_alias_resolves_under_home() {
    assert_eq!(resolve_home_alias_path("home/notes.txt", "/h"), Some("/h/notes.txt".to_string()));
    assert_eq!(resolve_home_alias_path("./home", "/h"), Some("/h".to_string()));
    assert_eq!(resolve_home_alias_path("homework", "/h"), None);
}

#[test]
fn path_starts_with_compares_components() {
    assert!(path_starts_with("/a/b/c", "/a/b"));
    assert!(path_starts_with("/a/b", "/a/b/"));
    assert!(!path_starts_with("/a/bc", "/a/b"));
    assert!(!path_starts_with("a/b", "/a"));
    assert!(path_starts_with("./a", "."));
}

#[test]
fn resolve_patch_path_keeps_relative_paths_inside_project() {
    let inside = "/h/AItermux/projectying/src";
    assert_eq!(
        resolve_patch_path(inside, "../../outside.txt", ROOT, "/h", true),
        Err(ToolPathError::OutsideProject)
    );
    assert_eq!(
        resolve_patch_path(inside, "../../outside.txt", ROOT, "/h", false),
        Ok("/h/AItermux/outside.txt".to_string())
    );
    assert_eq!(resolve_patch_path(inside, "./lib.rs", ROOT, "/h", true), Ok("/h/AItermux/projectying/src/lib.rs".to_string()));
    assert_eq!(resolve_patch_path("/tmp", "a/../b", ROOT, "/h", true), Ok("/tmp/b".to_string()));
}

#[test]
fn resolve_patch_path_absolute_aliases_and_blank() {
    assert_eq!(resolve_patch_path("/tmp", " /x/./y ", ROOT, "/h", true), Ok("/x/y".to_string()));
    assert_eq!(resolve_patch_path("/tmp", "home/a.txt", ROOT, "/h", true), Ok("/h/a.txt".to_string()));
    assert_eq!(
        resolve_patch_path("/tmp", "projectying/src/lib.rs", ROOT, "/h", true),
        Ok("/h/AItermux/projectying/src/lib.rs".to_string())
    );
    assert_eq!(resolve_patch_path("/tmp", "   ", ROOT, "/h", true), Err(ToolPathError::Empty));
    assert_eq!(ToolPathError::Empty.message(), "路径不能为空");
}

#[test]
fn resolve_tool_file_path_follows_patch_rules() {
    assert_eq!(
        resolve_tool_file_path("data/jobs.csv", "/h/AItermux/projectying", ROOT, "/h", true),
        Ok("/h/AItermux/projectying/data/jobs.csv".to_string())
    );
    assert_eq!(
        resolve_tool_file_path("../x.csv", "/h/AItermux/projectying", ROOT, "/h", true),
        Err(ToolPathError::OutsideProject)
    );
}

use dropbox_gateway::target::{join, names_parent, resolve, trim_trailing_slash};

#[test]
fn trailing_slash_is_trimmed_once() {
    assert_eq!(trim_trailing_slash("/a/"), "/a");
    assert_eq!(trim_trailing_slash("/a//"), "/a/");
    assert_eq!(trim_trailing_slash("/a"), "/a");
    assert_eq!(trim_trailing_slash(""), "");
    assert_eq!(trim_trailing_slash("/"), "");
}

#[test]
fn resolve_prepends_root() {
    assert_eq!(resolve("/data", "/proj"), "/data//proj");
    assert_eq!(resolve("/data", "/proj/"), "/data//proj");
    assert_eq!(resolve("/data", "/"), "/data/");
}

#[test]
fn path_and_path_with_slash_resolve_alike() {
    for p in ["/a", "/a/b.txt", "", "/über/ß"] {
        let with_slash = format!("{}/", p);
        assert_eq!(resolve("/data", p), resolve("/data", &with_slash));
    }
}

#[test]
fn join_puts_separator_between() {
    assert_eq!(join("/data/proj", "a.txt"), "/data/proj/a.txt");
    assert_eq!(join("", ""), "/");
}

#[test]
fn parent_segments_are_found() {
    assert!(names_parent(".."));
    assert!(names_parent("/.."));
    assert!(names_parent("/a/../b"));
    assert!(names_parent("../a"));
    assert!(names_parent("/a/.."));
}

#[test]
fn dots_inside_names_are_not_parent_segments() {
    assert!(!names_parent(""));
    assert!(!names_parent("/a/b"));
    assert!(!names_parent("/a..b/c"));
    assert!(!names_parent("/...") );
    assert!(!names_parent("/.hidden/..x"));
    assert!(!names_parent("a.txt"));
    assert!(!names_parent("."));
}

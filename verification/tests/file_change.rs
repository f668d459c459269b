use seal::file_change::{join, make_absolute, rule_chars, FileChange, FileChanges, FileResolver};

#[test]
fn test_make_absolute() {
    let base = "/home/user";
    let path = "file.txt";
    assert_eq!(make_absolute(base, path), "/home/user/file.txt");

    let path = "/home/user/file.txt";
    assert_eq!(make_absolute(base, path), "/home/user/file.txt");
}

#[test]
fn join_adds_one_separator() {
    assert_eq!(join("/root", "a/b"), "/root/a/b");
    assert_eq!(join("/root/", "a"), "/root/a");
    assert_eq!(join("", "a"), "a");
    assert_eq!(join("/root", "/etc/x"), "/etc/x");
}

#[test]
fn relative_path_strips_the_root() {
    let resolver = FileResolver::new("/work/proj".to_string());
    assert_eq!(resolver.relative_path("/work/proj/Cargo.toml"), "Cargo.toml");
    assert_eq!(resolver.relative_path("/work/project/Cargo.toml"), "/work/project/Cargo.toml");
    assert_eq!(resolver.relative_path("/elsewhere/x"), "/elsewhere/x");
    assert_eq!(resolver.relative_path("/work/proj"), "");
}

#[test]
fn relative_path_undoes_join() {
    let resolver = FileResolver::new("/work/proj".to_string());
    let joined = join("/work/proj", "pkg/version.py");
    assert_eq!(resolver.relative_path(&joined), "pkg/version.py");
}

#[test]
fn rule_line_grows_with_the_width() {
    let narrow: String = rule_chars(12, 10).into_iter().collect();
    assert_eq!(narrow, format!("{}\n", "─".repeat(12)));
    let wide: String = rule_chars(12, 20).into_iter().collect();
    assert_eq!(wide, format!("{}\n", "─".repeat(19)));
}

#[test]
fn display_diff_shows_a_unified_diff_under_the_relative_path() {
    let change = FileChange::new(
        "/work/proj/VERSION".to_string(),
        "a\nb\n".to_string(),
        "a\nc\n".to_string(),
    );
    let resolver = FileResolver::new("/work/proj".to_string());
    let shown = change.display_diff(&resolver, 13);
    assert_eq!(
        shown,
        format!("--- VERSION\n+++ VERSION\n@@ -1,2 +1,2 @@\n a\n-b\n+c\n{}\n", "─".repeat(12))
    );
}

#[test]
fn file_changes_extend_keeps_order() {
    let mut changes = FileChanges::new(vec![FileChange::new(
        "/a".to_string(),
        "1".to_string(),
        "2".to_string(),
    )]);
    changes.extend(FileChanges::new(vec![FileChange::new(
        "/b".to_string(),
        "3".to_string(),
        "4".to_string(),
    )]));
    let paths: Vec<&str> = changes.iter().iter().map(|c| c.path().as_str()).collect();
    assert_eq!(paths, vec!["/a", "/b"]);
    assert_eq!(changes.iter()[1].old_content(), "3");
    assert_eq!(changes.iter()[1].new_content(), "4");
}

#[test]
fn relative_path_compares_components() {
    let resolver = FileResolver::new("/work/proj".to_string());
    assert_eq!(resolver.relative_path("/work/proj/./Cargo.toml"), "Cargo.toml");
    assert_eq!(resolver.relative_path("/work//proj/pkg//a/./b.txt"), "pkg/a/b.txt");
    assert_eq!(resolver.relative_path("/work/proj/"), "");
    assert_eq!(resolver.relative_path("work/proj/a"), "work/proj/a");
    let trailing = FileResolver::new("/work/proj/".to_string());
    assert_eq!(trailing.relative_path("/work/proj/a.toml"), "a.toml");
    let dot = FileResolver::new(".".to_string());
    assert_eq!(dot.relative_path("./a/b"), "a/b");
    assert_eq!(dot.relative_path("a/b"), "a/b");
    let empty = FileResolver::new(String::new());
    assert_eq!(empty.relative_path("./a//b"), "./a//b");
}

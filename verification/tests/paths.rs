use tmpfs::join_str;
use tmpfs::TmpFs;

#[test]
fn join_inserts_separator() {
    assert_eq!(join_str("a", "b"), "a/b");
    assert_eq!(join_str("/tmp/x", "y/z.txt"), "/tmp/x/y/z.txt");
}

#[test]
fn join_keeps_existing_separator() {
    assert_eq!(join_str("a/", "b"), "a/b");
}

#[test]
fn join_of_empty_base_is_the_relative_path() {
    assert_eq!(join_str("", "b"), "b");
}

#[test]
fn join_of_absolute_path_replaces_base() {
    assert_eq!(join_str("/tmp/x", "/etc"), "/etc");
}

#[test]
fn join_of_empty_relative_adds_trailing_separator() {
    assert_eq!(join_str("/tmp/x", ""), "/tmp/x/");
}

#[test]
fn qualify_joins_root_and_relative() {
    let fs = TmpFs::new(false).unwrap();
    let root = fs.root().to_string();
    assert_eq!(fs.path("a/b.txt"), format!("{}/a/b.txt", root));
}

#[test]
fn qualify_needs_no_existing_file() {
    let fs = TmpFs::new(false).unwrap();
    let root = fs.root().to_string();
    assert_eq!(fs.path("no/such/entry"), format!("{}/no/such/entry", root));
}

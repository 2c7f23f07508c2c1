use tmpfs::{AssetDir, AssetEntry, AssetFile, CopyStep, TmpFs};

fn file(path: &str, contents: &[u8]) -> AssetEntry {
    AssetEntry::File(AssetFile { path: path.to_string(), contents: contents.to_vec() })
}

fn dir(path: &str, entries: Vec<AssetEntry>) -> AssetEntry {
    AssetEntry::Dir(AssetDir { path: path.to_string(), entries })
}

fn tree(entries: Vec<AssetEntry>) -> AssetDir {
    AssetDir { path: String::new(), entries }
}

#[test]
fn copy_plan_lists_actions_in_order() {
    let t = tree(vec![dir("a", vec![dir("a/b", vec![file("a/b/c.txt", b"x")])])]);
    let steps = tmpfs::assets::copy_plan(&t.entries, "/dest");
    assert_eq!(steps.len(), 3);
    match &steps[0] {
        CopyStep::MakeDir(p) => assert_eq!(p, "/dest/a"),
        _ => panic!("expected a directory creation"),
    }
    match &steps[1] {
        CopyStep::MakeDir(p) => assert_eq!(p, "/dest/a/b"),
        _ => panic!("expected a directory creation"),
    }
    match &steps[2] {
        CopyStep::WriteFile(p, c) => {
            assert_eq!(p, "/dest/a/b/c.txt");
            assert_eq!(c, &b"x".to_vec());
        },
        _ => panic!("expected a file write"),
    }
}

#[test]
fn copy_assets_preserves_nested_structure() {
    let fs = TmpFs::new(false).unwrap();
    let t = tree(vec![dir("a", vec![dir("a/b", vec![file("a/b/c.txt", b"x")])])]);
    fs.copy_assets(&t).unwrap();
    assert_eq!(fs.read_file("a/b/c.txt").unwrap(), b"x".to_vec());
}

#[test]
fn copy_assets_of_empty_tree_succeeds() {
    let fs = TmpFs::new(false).unwrap();
    fs.copy_assets(&tree(vec![])).unwrap();
}

#[test]
fn copy_uses_only_the_final_path_component() {
    // A known quirk, kept on purpose: ancestor components recorded in
    // an entry's path are discarded, so a deep recorded path lands
    // directly under the destination.
    let fs = TmpFs::new(false).unwrap();
    let t = tree(vec![file("deep/nested/name.txt", b"flat")]);
    fs.copy_assets(&t).unwrap();
    assert_eq!(fs.read_file("name.txt").unwrap(), b"flat".to_vec());
}

#[test]
fn colliding_final_components_overwrite_in_order() {
    // The second half of the same quirk: two entries whose recorded
    // paths differ only above the final component write to one target,
    // and the later entry wins.
    let fs = TmpFs::new(false).unwrap();
    let t = tree(vec![file("p/x.txt", b"first"), file("q/x.txt", b"second")]);
    fs.copy_assets(&t).unwrap();
    assert_eq!(fs.read_file("x.txt").unwrap(), b"second".to_vec());
}

#[test]
fn copy_fails_when_directory_already_exists() {
    let fs = TmpFs::new(false).unwrap();
    let t = tree(vec![dir("a", vec![])]);
    fs.copy_assets(&t).unwrap();
    assert!(fs.copy_assets(&t).is_err());
}

#[test]
fn copy_overwrites_existing_file() {
    let fs = TmpFs::new(false).unwrap();
    fs.write_file("f.txt", "old").unwrap();
    let t = tree(vec![file("f.txt", b"new")]);
    fs.copy_assets(&t).unwrap();
    assert_eq!(fs.read_file("f.txt").unwrap(), b"new".to_vec());
}

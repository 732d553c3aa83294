use build_utils::{DirPath, Snapshot};

fn dir(names: &[&str]) -> DirPath {
    DirPath::from_segments(names.iter().map(|name| name.to_string()).collect())
}

#[test]
fn root_has_no_names() {
    let root = DirPath::root();
    assert_eq!(root.depth(), 0);
    assert!(root.is_root());
    assert!(root.segments().is_empty());
    assert_eq!(root, dir(&[]));
}

#[test]
fn segments_come_back_in_order() {
    let path = dir(&["home", "user", "project"]);
    assert_eq!(path.segments(), &vec!["home".to_string(), "user".to_string(), "project".to_string()]);
    assert_eq!(path.depth(), 3);
    assert!(!path.is_root());
}

#[test]
fn parent_drops_the_last_name() {
    assert_eq!(dir(&["a", "b", "c"]).parent(), Some(dir(&["a", "b"])));
    assert_eq!(dir(&["a"]).parent(), Some(DirPath::root()));
    assert_eq!(DirPath::root().parent(), None);
}

#[test]
fn ancestor_counts_levels() {
    let path = dir(&["a", "b", "c"]);
    assert_eq!(path.ancestor(0), Some(dir(&["a", "b", "c"])));
    assert_eq!(path.ancestor(1), Some(dir(&["a", "b"])));
    assert_eq!(path.ancestor(2), Some(dir(&["a"])));
    assert_eq!(path.ancestor(3), Some(DirPath::root()));
    assert_eq!(path.ancestor(4), None);
    assert_eq!(path.ancestor(usize::MAX), None);
    assert_eq!(DirPath::root().ancestor(0), Some(DirPath::root()));
}

#[test]
fn ancestor_is_repeated_parent() {
    let path = dir(&["a", "b", "c", "d"]);
    let mut up = Some(path.clone());
    for hops in 0..6 {
        assert_eq!(path.ancestor(hops), up);
        up = up.and_then(|dir| dir.parent());
    }
}

#[test]
fn join_appends_one_name() {
    assert_eq!(dir(&["a"]).join("b"), dir(&["a", "b"]));
    assert_eq!(DirPath::root().join("pants"), dir(&["pants"]));
    let base = dir(&["a", "b"]);
    let entry = base.join("c");
    assert_eq!(base, dir(&["a", "b"]));
    assert_eq!(entry.parent(), Some(base));
}

#[test]
fn render_puts_a_slash_before_each_name() {
    assert_eq!(DirPath::root().render(), "/");
    assert_eq!(dir(&["tmp"]).render(), "/tmp");
    assert_eq!(dir(&["home", "user", "project", "src"]).render(), "/home/user/project/src");
    assert_eq!(dir(&["caf\u{e9}", "\u{65e5}\u{672c}"]).render(), "/caf\u{e9}/\u{65e5}\u{672c}");
}

#[test]
fn equality_compares_names() {
    assert_eq!(dir(&["a", "b"]), dir(&["a", "b"]));
    assert_ne!(dir(&["a", "b"]), dir(&["a"]));
    assert_ne!(dir(&["a"]), dir(&["a", "b"]));
    assert_ne!(dir(&["a", "b"]), dir(&["a", "c"]));
    assert_ne!(dir(&["a", "b"]), dir(&["b", "a"]));
    assert_ne!(dir(&["ab"]), dir(&["a", "b"]));
    assert_ne!(dir(&["a"]), DirPath::root());
}

#[test]
fn clone_is_equal_and_independent() {
    let path = dir(&["a", "b"]);
    let copy = path.clone();
    assert_eq!(copy, path);
    assert_eq!(copy.join("c"), dir(&["a", "b", "c"]));
    assert_eq!(path, dir(&["a", "b"]));
}

#[test]
fn ancestor_or_self_is_a_prefix() {
    let path = dir(&["a", "b", "c"]);
    assert!(DirPath::root().is_ancestor_or_self_of(&path));
    assert!(dir(&["a"]).is_ancestor_or_self_of(&path));
    assert!(dir(&["a", "b"]).is_ancestor_or_self_of(&path));
    assert!(path.is_ancestor_or_self_of(&path));
    assert!(!dir(&["a", "b", "c", "d"]).is_ancestor_or_self_of(&path));
    assert!(!dir(&["b"]).is_ancestor_or_self_of(&path));
    assert!(!dir(&["a", "c"]).is_ancestor_or_self_of(&path));
    assert!(!dir(&["b", "c"]).is_ancestor_or_self_of(&path));
    assert!(!path.is_ancestor_or_self_of(&DirPath::root()));
}

#[test]
fn snapshot_holds_what_was_inserted() {
    let mut tree = Snapshot::new();
    assert!(!tree.contains(&dir(&["a"])));
    assert!(!tree.contains(&DirPath::root()));
    tree.insert(dir(&["a", "b"]));
    assert!(tree.contains(&dir(&["a", "b"])));
    assert!(!tree.contains(&dir(&["a"])));
    assert!(!tree.contains(&dir(&["a", "b", "c"])));
    tree.insert(dir(&["a", "b"]));
    tree.insert(DirPath::root());
    assert!(tree.contains(&dir(&["a", "b"])));
    assert!(tree.contains(&DirPath::root()));
    assert!(!tree.contains(&dir(&["b", "a"])));
}

use creamhack::fs_tree::{build_tree, DirEntry, DirListing, EntryContent, TreeNode};

fn entry(path: &str, name: &str, content: EntryContent) -> DirEntry {
    DirEntry { path: path.to_string(), name: name.to_string(), content }
}

fn shape(n: &TreeNode) -> String {
    if n.children.is_empty() {
        format!("{}={}", n.text, n.identifier)
    } else {
        let inner: Vec<String> = n.children.iter().map(shape).collect();
        format!("{}=({})", n.text, inner.join(" "))
    }
}

#[test]
fn tree_repeats_dot_entries_at_every_level() {
    let sub = DirListing {
        path: "/w/d".to_string(),
        parent: Some("/w".to_string()),
        entries: vec![entry("/w/d/x", "x", EntryContent::Leaf)],
    };
    let root = DirListing {
        path: "/w".to_string(),
        parent: Some("/".to_string()),
        entries: vec![
            entry("/w/a.txt", "a.txt", EntryContent::Leaf),
            entry("/w/sock", "sock", EntryContent::Skipped),
            entry("/w/d", "d", EntryContent::Directory(sub)),
        ],
    };
    let nodes = build_tree(&root);
    let shapes: Vec<String> = nodes.iter().map(shape).collect();
    assert_eq!(
        shapes,
        vec![".=/w", "..=/", "a.txt=/w/a.txt", "d=(.=/w/d ..=/w x=/w/d/x)"]
    );
}

#[test]
fn tree_of_root_has_no_parent_entry() {
    let root = DirListing { path: "/".to_string(), parent: None, entries: Vec::new() };
    let nodes = build_tree(&root);
    assert_eq!(nodes.len(), 1);
    assert_eq!(nodes[0].text, ".");
    assert_eq!(nodes[0].identifier, "/");
}

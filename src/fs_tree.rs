//! The directory tree of the working-directory popup, built from a listing
//! of plain values: each level starts with a "." entry for the directory
//! itself and a ".." entry for its parent, then one node per child.

use vstd::prelude::*;

verus! {

broadcast use vstd::std_specs::vec::axiom_vec_index_decreases;

/// What a directory entry is.
pub enum EntryContent {
    /// A directory, with its own listing.
    Directory(DirListing),
    /// A file or a symbolic link.
    Leaf,
    /// Anything else; it is not shown.
    Skipped,
}

pub struct DirEntry {
    /// The entry's full path, which identifies its node.
    pub path: String,
    /// The entry's file name, which the node shows.
    pub name: String,
    pub content: EntryContent,
}

/// A directory read from disk: its path, its parent's path if it has one,
/// and its entries in the order they were read.
pub struct DirListing {
    pub path: String,
    pub parent: Option<String>,
    pub entries: Vec<DirEntry>,
}

/// A node of the tree: its identifier (a path), its text and its children;
/// a node without children is a leaf.
#[derive(Debug)]
pub struct TreeNode {
    pub identifier: String,
    pub text: String,
    pub children: Vec<TreeNode>,
}

pub open spec fn is_leaf(n: TreeNode, identifier: Seq<char>, text: Seq<char>) -> bool {
    n.identifier@ == identifier && n.text@ == text && n.children@.len() == 0
}

/// `nodes` are the tree of listing `l`: "." for `l` itself, ".." for its
/// parent when it has one, then the nodes of its entries.
pub open spec fn listing_matches(l: DirListing, nodes: Seq<TreeNode>) -> bool
    decreases l, l.entries@.len() + 1,
{
    let h: int = if l.parent is Some { 2 } else { 1 };
    &&& nodes.len() >= h
    &&& is_leaf(nodes[0], l.path@, "."@)
    &&& (l.parent matches Some(p) ==> is_leaf(nodes[1], p@, ".."@))
    &&& entries_match(l, 0, nodes.skip(h))
}

/// `nodes` are the nodes of the entries of `l` from the `i`-th on: a
/// directory gives a node holding its own tree, a file or link a leaf, and
/// anything else nothing.
pub open spec fn entries_match(l: DirListing, i: int, nodes: Seq<TreeNode>) -> bool
    decreases l, l.entries@.len() - i,
{
    if i < 0 || i >= l.entries@.len() {
        nodes.len() == 0
    } else {
        let e = l.entries@[i];
        match e.content {
            EntryContent::Directory(sub) => {
                &&& nodes.len() > 0
                &&& nodes[0].identifier@ == e.path@
                &&& nodes[0].text@ == e.name@
                &&& listing_matches(sub, nodes[0].children@)
                &&& entries_match(l, i + 1, nodes.drop_first())
            },
            EntryContent::Leaf => {
                &&& nodes.len() > 0
                &&& is_leaf(nodes[0], e.path@, e.name@)
                &&& entries_match(l, i + 1, nodes.drop_first())
            },
            EntryContent::Skipped => entries_match(l, i + 1, nodes),
        }
    }
}

fn leaf(identifier: &String, text: &str) -> (r: TreeNode)
    ensures
        is_leaf(r, identifier@, text@),
{
    TreeNode { identifier: identifier.clone(), text: String::from_str(text), children: Vec::new() }
}

/// The tree of a listing, every level the same way.
pub fn build_tree(l: &DirListing) -> (r: Vec<TreeNode>)
    ensures
        listing_matches(*l, r@),
    decreases l,
{
    let mut acc: Vec<TreeNode> = Vec::new();
    let mut i: usize = l.entries.len();
    while i > 0
        invariant
            i <= l.entries@.len(),
            entries_match(*l, i as int, acc@),
        decreases i,
    {
        i = i - 1;
        let e = &l.entries[i];
        let ghost before = acc@;
        match &e.content {
            EntryContent::Directory(sub) => {
                assert(decreases_to!(*l => l.entries));
                assert(decreases_to!(l.entries => l.entries[i as int]));
                let children = build_tree(sub);
                acc.insert(0, TreeNode { identifier: e.path.clone(), text: e.name.clone(), children });
                assert(acc@.drop_first() =~= before);
            },
            EntryContent::Leaf => {
                acc.insert(0, leaf(&e.path, e.name.as_str()));
                assert(acc@.drop_first() =~= before);
            },
            EntryContent::Skipped => {},
        }
    }
    let mut r: Vec<TreeNode> = Vec::new();
    r.push(leaf(&l.path, "."));
    match &l.parent {
        Some(p) => r.push(leaf(p, "..")),
        None => {},
    }
    let ghost h = r@.len() as int;
    let ghost entries = acc@;
    r.append(&mut acc);
    assert(r@.skip(h) =~= entries);
    r
}

} // verus!

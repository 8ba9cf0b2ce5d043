//! Finding working copies beneath a root directory. The caller walks the
//! tree, asking `visit_children` before it lists a directory, and hands
//! every entry it saw to `locate_repositories`, in the order it saw them.

use vstd::prelude::*;

verus! {

/// The deepest entry that a scan which is not recursive looks at: the
/// root's children stand at depth 1, their children at depth 2.
pub const SHALLOW_SCAN_DEPTH: usize = 2;

/// An entry met while walking beneath the root.
#[derive(Clone, Debug)]
pub struct DirEntry {
    /// The directory that holds the entry.
    pub parent: String,
    /// The entry's own name.
    pub name: String,
    /// How many levels below the root the entry stands (the root's children: 1).
    pub depth: usize,
    /// Whether the entry is a directory.
    pub is_dir: bool,
}

/// Whether a scan looks at entries at `depth`.
pub open spec fn depth_scanned(depth: nat, recursive: bool) -> bool {
    recursive || depth <= SHALLOW_SCAN_DEPTH
}

/// Whether an entry is the metadata directory that marks a working copy.
pub open spec fn is_marker(e: DirEntry) -> bool {
    e.is_dir && e.name@ == ".git"@
}

/// Whether a scan reports the entry's parent as a repository.
pub open spec fn reported(e: DirEntry, recursive: bool) -> bool {
    is_marker(e) && depth_scanned(e.depth as nat, recursive)
}

/// The repositories that a scan reports from the entries, in their order.
pub open spec fn located(es: Seq<DirEntry>, recursive: bool) -> Seq<String>
    decreases es.len(),
{
    if es.len() == 0 {
        Seq::empty()
    } else {
        let rest = located(es.drop_last(), recursive);
        if reported(es.last(), recursive) {
            rest.push(es.last().parent)
        } else {
            rest
        }
    }
}

/// Whether the walk lists the children of a directory at `depth`.
pub fn visit_children(depth: usize, recursive: bool) -> (r: bool)
    ensures
        r == depth_scanned(depth as nat + 1, recursive),
{
    recursive || depth < SHALLOW_SCAN_DEPTH
}

/// Whether the entry marks a working copy.
pub fn is_metadata_dir(e: &DirEntry) -> (r: bool)
    ensures
        r == is_marker(*e),
{
    let marker = String::from_str(".git");
    e.is_dir && e.name == marker
}

/// The repositories found among the entries of a walk: the parent of each
/// metadata directory within the scan's depth, in the walk's order.
pub fn locate_repositories(entries: &Vec<DirEntry>, recursive: bool) -> (r: Vec<String>)
    ensures
        r@ == located(entries@, recursive),
{
    let mut r: Vec<String> = Vec::new();
    let mut i: usize = 0;
    while i < entries.len()
        invariant
            0 <= i <= entries@.len(),
            r@ == located(entries@.take(i as int), recursive),
        decreases entries@.len() - i,
    {
        let e = &entries[i];
        assert(entries@.take(i + 1).drop_last() =~= entries@.take(i as int));
        assert(entries@.take(i + 1).last() == *e);
        if is_metadata_dir(e) && (recursive || e.depth <= SHALLOW_SCAN_DEPTH) {
            r.push(e.parent.clone());
        }
        i = i + 1;
    }
    assert(entries@.take(i as int) =~= entries@);
    r
}

proof fn lemma_located_is_filter(es: Seq<DirEntry>, recursive: bool)
    ensures
        located(es, recursive) == es.filter(|e: DirEntry| reported(e, recursive)).map_values(
            |e: DirEntry| e.parent,
        ),
    decreases es.len(),
{
    let p = |e: DirEntry| reported(e, recursive);
    let f = |e: DirEntry| e.parent;
    if es.len() == 0 {
        assert(es.filter(p) =~= Seq::<DirEntry>::empty()) by {
            es.lemma_filter_len(p);
        }
        assert(es.filter(p).map_values(f) =~= Seq::<String>::empty());
    } else {
        let init = es.drop_last();
        lemma_located_is_filter(init, recursive);
        assert(init.push(es.last()) =~= es);
        init.lemma_filter_push(es.last(), p);
        if p(es.last()) {
            init.filter(p).lemma_push_map_commute(f, es.last());
        }
    }
}

/// Which metadata directories a scan reports: a recursive scan reports every
/// one, at any depth; a scan that is not recursive reports exactly those at
/// depth two or less, so that on a tree with no deeper one both agree.
pub proof fn lemma_scan_depth(es: Seq<DirEntry>)
    ensures
        located(es, true) == es.filter(|e: DirEntry| is_marker(e)).map_values(
            |e: DirEntry| e.parent,
        ),
        located(es, false) == es.filter(
            |e: DirEntry| is_marker(e) && e.depth <= SHALLOW_SCAN_DEPTH,
        ).map_values(|e: DirEntry| e.parent),
        (forall|i: int| 0 <= i < es.len() && is_marker(#[trigger] es[i]) ==> es[i].depth
            <= SHALLOW_SCAN_DEPTH) ==> located(es, false) == located(es, true),
    decreases es.len(),
{
    lemma_located_is_filter(es, true);
    lemma_located_is_filter(es, false);
    assert((|e: DirEntry| reported(e, true)) =~= (|e: DirEntry| is_marker(e)));
    assert((|e: DirEntry| reported(e, false)) =~= (|e: DirEntry|
        is_marker(e) && e.depth <= SHALLOW_SCAN_DEPTH));
    if forall|i: int| 0 <= i < es.len() && is_marker(#[trigger] es[i]) ==> es[i].depth
        <= SHALLOW_SCAN_DEPTH {
        if es.len() > 0 {
            lemma_scan_depth(es.drop_last());
            assert(forall|i: int| 0 <= i < es.drop_last().len() ==> es.drop_last()[i] == es[i]);
        }
    }
}

} // verus!

//! The directory scanner: which children of a directory can be launched.
//!
//! Reading the directory is the caller's business. The scanner takes what
//! was read, one [`DirChild`] per immediate child, and keeps the paths of
//! those that are regular files with an execute permission bit set. It does
//! not look below the directory, does not sort, and drops nothing else.

use vstd::prelude::*;
use vstd::seq_lib::to_multiset_contains;

verus! {

/// The execute bits of a POSIX file mode: owner, group and other.
pub const EXECUTE_BITS: u32 = 0o111;

/// One immediate child of the scanned directory, as the file system
/// described it.
#[derive(Debug, Clone, PartialEq, Eq)]
pub struct DirChild {
    /// The child's path.
    pub path: String,
    /// Whether the child is a regular file.
    pub is_file: bool,
    /// The child's permission bits; `None` where they could not be read.
    pub mode: Option<u32>,
}

/// What came of opening the directory.
#[derive(Debug, Clone, PartialEq, Eq)]
pub enum Listing {
    /// The directory is missing or may not be read.
    Unavailable,
    /// The directory's immediate children, in the order the system gave.
    Children(Vec<DirChild>),
}

/// Whether owner, group or other may execute a file of this mode.
pub open spec fn has_execute_bit(mode: u32) -> bool {
    mode & EXECUTE_BITS != 0
}

/// Whether a child belongs in the result: a regular file whose permission
/// bits were read and hold an execute bit.
pub open spec fn is_launchable(child: DirChild) -> bool {
    &&& child.is_file
    &&& child.mode matches Some(mode)
    &&& has_execute_bit(mode)
}

/// `is_launchable` as a predicate value.
pub open spec fn launchable() -> spec_fn(DirChild) -> bool {
    |child: DirChild| is_launchable(child)
}

/// The projection of a child on its path.
pub open spec fn path_of() -> spec_fn(DirChild) -> String {
    |child: DirChild| child.path
}

/// The scan of a list of children: the launchable ones, in their order,
/// each by its path.
pub open spec fn launchable_paths(children: Seq<DirChild>) -> Seq<String> {
    children.filter(launchable()).map_values(path_of())
}

/// The scan of a listing: nothing where the directory was unavailable.
pub open spec fn scan_result(listing: Listing) -> Seq<String> {
    match listing {
        Listing::Unavailable => Seq::empty(),
        Listing::Children(children) => launchable_paths(children@),
    }
}

/// An execute bit is set exactly when the owner's, the group's or the
/// others' is.
pub proof fn lemma_execute_bit_is_any_of_three(mode: u32)
    ensures
        has_execute_bit(mode) <==> (mode & 0o100 != 0 || mode & 0o010 != 0 || mode & 0o001 != 0),
{
    assert((mode & 0o111 != 0) <==> (mode & 0o100 != 0 || mode & 0o010 != 0 || mode & 0o001 != 0))
        by (bit_vector);
}

/// Scanning one more child appends its path if it is launchable and changes
/// nothing if it is not.
pub proof fn lemma_scan_push(children: Seq<DirChild>, child: DirChild)
    ensures
        launchable_paths(children.push(child)) == if is_launchable(child) {
            launchable_paths(children).push(child.path)
        } else {
            launchable_paths(children)
        },
{
    children.lemma_filter_push(child, launchable());
    if is_launchable(child) {
        children.filter(launchable()).lemma_push_map_commute(path_of(), child);
    }
}

/// The scan holds exactly the launchable children: a path is in the result
/// if and only if some child of the directory is launchable and has that
/// path.
pub proof fn lemma_scan_exact(children: Seq<DirChild>, path: String)
    ensures
        launchable_paths(children).contains(path) <==> exists|i: int|
            0 <= i < children.len() && is_launchable(#[trigger] children[i]) && children[i].path
                == path,
{
    let kept = children.filter(launchable());
    let paths = launchable_paths(children);
    if paths.contains(path) {
        let k = choose|k: int| 0 <= k < paths.len() && paths[k] == path;
        assert(kept[k].path == path);
        children.lemma_filter_pred(launchable(), k);
        assert(kept.contains(kept[k]));
        children.lemma_filter_contains_rev(launchable(), kept[k]);
        let i = choose|i: int| 0 <= i < children.len() && children[i] == kept[k];
        assert(is_launchable(children[i]) && children[i].path == path);
    }
    if exists|i: int|
        0 <= i < children.len() && is_launchable(#[trigger] children[i]) && children[i].path
            == path {
        let i = choose|i: int|
            0 <= i < children.len() && is_launchable(#[trigger] children[i]) && children[i].path
                == path;
        assert(launchable()(children[i]));
        children.lemma_filter_contains(launchable(), i);
        let k = choose|k: int| 0 <= k < kept.len() && kept[k] == children[i];
        assert(paths[k] == path);
    }
}

/// Nothing that is not launchable gets through: a path that belongs to no
/// launchable child, be it the path of a subdirectory, of a file without an
/// execute bit or of a file whose permissions could not be read, is not in
/// the result.
pub proof fn lemma_scan_excludes(children: Seq<DirChild>, path: String)
    requires
        forall|i: int|
            0 <= i < children.len() && (#[trigger] children[i]).path == path ==> !is_launchable(
                children[i],
            ),
    ensures
        !launchable_paths(children).contains(path),
{
    lemma_scan_exact(children, path);
}

/// The scan finds as many paths as there are launchable children: none is
/// left out and none is listed twice.
pub proof fn lemma_scan_len(children: Seq<DirChild>)
    ensures
        launchable_paths(children).len() == children.filter(launchable()).len(),
        launchable_paths(children).len() <= children.len(),
{
    children.lemma_filter_len(launchable());
}

/// Two scans of a directory that has not changed find the same set of
/// paths, in whatever order the system lists the children each time.
pub proof fn lemma_rescan_same_set(first: Seq<DirChild>, second: Seq<DirChild>)
    requires
        first.to_multiset() == second.to_multiset(),
    ensures
        launchable_paths(first).to_set() == launchable_paths(second).to_set(),
{
    assert forall|path: String|
        launchable_paths(first).contains(path) <==> launchable_paths(second).contains(
            path,
        ) by {
        lemma_scan_exact(first, path);
        lemma_scan_exact(second, path);
        if launchable_paths(first).contains(path) {
            let i = choose|i: int|
                0 <= i < first.len() && is_launchable(#[trigger] first[i]) && first[i].path == path;
            assert(first.contains(first[i]));
            to_multiset_contains(first, first[i]);
            to_multiset_contains(second, first[i]);
            let j = choose|j: int| 0 <= j < second.len() && second[j] == first[i];
            assert(is_launchable(second[j]) && second[j].path == path);
        }
        if launchable_paths(second).contains(path) {
            let i = choose|i: int|
                0 <= i < second.len() && is_launchable(#[trigger] second[i]) && second[i].path
                    == path;
            assert(second.contains(second[i]));
            to_multiset_contains(second, second[i]);
            to_multiset_contains(first, second[i]);
            let j = choose|j: int| 0 <= j < first.len() && first[j] == second[i];
            assert(is_launchable(first[j]) && first[j].path == path);
        }
    }
    assert(launchable_paths(first).to_set() =~= launchable_paths(second).to_set());
}

/// Whether a file of this mode may be executed by anyone.
pub fn has_execute_permission(mode: u32) -> (yes: bool)
    ensures
        yes == has_execute_bit(mode),
{
    mode & EXECUTE_BITS != 0
}

/// Whether a child belongs in the scan's result.
pub fn child_is_launchable(child: &DirChild) -> (yes: bool)
    ensures
        yes == is_launchable(*child),
{
    if !child.is_file {
        return false;
    }
    match child.mode {
        Some(mode) => has_execute_permission(mode),
        None => false,
    }
}

/// Picks the launchable children out of a directory's children.
pub fn select_executables(children: &Vec<DirChild>) -> (found: Vec<String>)
    ensures
        found@ == launchable_paths(children@),
{
    let mut found: Vec<String> = Vec::new();
    let mut i: usize = 0;
    assert(children@.take(0) =~= Seq::<DirChild>::empty());
    assert(launchable_paths(Seq::<DirChild>::empty()) =~= Seq::<String>::empty());
    while i < children.len()
        invariant
            i <= children.len(),
            found@ == launchable_paths(children@.take(i as int)),
        decreases children.len() - i,
    {
        let child = &children[i];
        proof {
            assert(children@.take(i as int).push(*child) =~= children@.take(i + 1));
            lemma_scan_push(children@.take(i as int), *child);
        }
        if child_is_launchable(child) {
            found.push(child.path.clone());
        }
        i = i + 1;
    }
    assert(children@.take(children.len() as int) =~= children@);
    found
}

/// Scans a directory, given what listing it produced. A directory that
/// could not be opened has no launchable children; that is no error.
pub fn scan(listing: &Listing) -> (found: Vec<String>)
    ensures
        found@ == scan_result(*listing),
{
    match listing {
        Listing::Unavailable => Vec::new(),
        Listing::Children(children) => select_executables(children),
    }
}

} // verus!

use vstd::prelude::*;
use vstd::multiset::Multiset;
use vstd::seq_lib::group_to_multiset_ensures;
use crate::entry::{
    entry_precedes, entry_views, is_listed, is_listed_name, is_sorted, lemma_precedes_total,
    lemma_precedes_transitive, precedes, DirectoryEntry, EntryView,
};
use crate::error::{open_error, open_error_of, FsError, FsErrorView, OsErrorKind};
use vstd::string::StringExecFns;

verus! {

broadcast use group_to_multiset_ensures;

/// What the filesystem holds at a path.
#[derive(Clone, Copy, Debug, PartialEq, Eq, Structural)]
pub enum PathKind {
    /// Nothing, or a symbolic link whose target is missing.
    Missing,
    /// Something that is not a directory.
    File,
    /// A directory.
    Directory,
}

/// What a path holds, from whether it exists and whether it is a directory.
pub open spec fn kind_of(exists: bool, is_dir: bool) -> PathKind {
    if !exists {
        PathKind::Missing
    } else if is_dir {
        PathKind::Directory
    } else {
        PathKind::File
    }
}

/// A path validates exactly when it exists and is a directory: a missing path
/// and a path that is a file do not.
pub proof fn lemma_validates_iff_directory(exists: bool, is_dir: bool)
    ensures
        (kind_of(exists, is_dir) == PathKind::Directory) == (exists && is_dir),
        !exists ==> kind_of(exists, is_dir) != PathKind::Directory,
        exists && !is_dir ==> kind_of(exists, is_dir) != PathKind::Directory,
{
}

/// Names what the filesystem holds at a path from the two answers the host
/// gives: whether the path exists, and whether it is a directory.
pub fn path_kind(exists: bool, is_dir: bool) -> (r: PathKind)
    ensures
        r == kind_of(exists, is_dir),
{
    if !exists {
        PathKind::Missing
    } else if is_dir {
        PathKind::Directory
    } else {
        PathKind::File
    }
}

/// The path that a listing resolves: the one given, or else `.`, the working
/// directory, named explicitly.
pub fn listing_path(path: Option<String>) -> (r: String)
    ensures
        path is Some ==> r@ == path->Some_0@,
        path is None ==> r@ == "."@,
{
    match path {
        Some(p) => p,
        None => String::from_str("."),
    }
}

/// Whether a path can be opened as a folder: true exactly for a directory.
pub fn validate_path(kind: PathKind) -> (r: bool)
    ensures
        r == (kind == PathKind::Directory),
{
    match kind {
        PathKind::Directory => true,
        _ => false,
    }
}

/// The entries that a listing shows, out of the children that were enumerated
/// (`None` stands for a child that could not be read, which is skipped).
pub open spec fn listed(children: Seq<Option<DirectoryEntry>>) -> Seq<EntryView>
    decreases children.len(),
{
    if children.len() == 0 {
        Seq::empty()
    } else {
        let rest = listed(children.drop_last());
        let last = children.last();
        if last is Some && is_listed_name(last->Some_0.name@) {
            rest.push(last->Some_0@)
        } else {
            rest
        }
    }
}

/// Inserts `e` into a sorted vector after every entry that precedes it.
fn insert_sorted(out: &mut Vec<DirectoryEntry>, e: DirectoryEntry) -> (p: usize)
    requires
        is_sorted(entry_views(old(out)@)),
        old(out)@.len() < usize::MAX,
    ensures
        p <= old(out)@.len(),
        final(out)@.len() == old(out)@.len() + 1,
        entry_views(final(out)@) == entry_views(old(out)@).insert(p as int, e@),
        is_sorted(entry_views(final(out)@)),
{
    let ghost s = entry_views(out@);
    let mut i: usize = 0;
    while i < out.len() && entry_precedes(&out[i], &e)
        invariant
            i <= out@.len(),
            s == entry_views(out@),
            forall|k: int| 0 <= k < i ==> precedes(#[trigger] s[k], e@),
        decreases out@.len() - i,
    {
        i = i + 1;
    }
    proof {
        if i < s.len() {
            lemma_precedes_total(s[i as int], e@);
            assert forall|j: int| i <= j < s.len() implies precedes(e@, #[trigger] s[j]) by {
                if j > i {
                    lemma_precedes_transitive(e@, s[i as int], s[j]);
                }
            }
        }
    }
    out.insert(i, e);
    proof {
        let t = entry_views(out@);
        assert(t =~= s.insert(i as int, e@));
        assert forall|a: int, b: int| 0 <= a < b < t.len() implies #[trigger] precedes(t[a], t[b]) by {
            if a < i && b > i {
                assert(t[b] == s[b - 1]);
            } else if a == i {
                assert(t[b] == s[b - 1]);
            } else if a > i {
                assert(precedes(s[a - 1], s[b - 1]));
            }
        }
    }
    i
}

/// Lists the children of a directory. `kind` is what the path holds;
/// `children` is the outcome of opening it: the failure the system reported,
/// or the enumerated children, each with its name, its full path and whether
/// it is a directory, or `None` where reading that one child failed.
pub fn list_directory(
    kind: PathKind,
    children: Result<Vec<Option<DirectoryEntry>>, (OsErrorKind, String)>,
) -> (r: Result<Vec<DirectoryEntry>, FsError>)
    ensures
        kind == PathKind::Missing ==> r is Err && r->Err_0@ == FsErrorView::NotFound,
        kind == PathKind::File ==> r is Err && r->Err_0@ == FsErrorView::NotADirectory,
        kind == PathKind::Directory && children is Err ==> r is Err && r->Err_0@ == open_error_of(
            children->Err_0.0,
            children->Err_0.1@,
        ),
        kind == PathKind::Directory && children is Ok ==> r is Ok && {
            let out = entry_views(r->Ok_0@);
            &&& out.to_multiset() == listed(children->Ok_0@).to_multiset()
            &&& is_sorted(out)
            &&& forall|k: int| 0 <= k < out.len() ==> is_listed_name(#[trigger] out[k].name)
        },
{
    match kind {
        PathKind::Missing => {
            return Err(FsError::NotFound);
        },
        PathKind::File => {
            return Err(FsError::NotADirectory);
        },
        PathKind::Directory => {},
    }
    let children = match children {
        Ok(children) => children,
        Err((kind, message)) => {
            return Err(open_error(kind, message));
        },
    };
    let ghost all = children@;
    let n: usize = children.len();
    let mut rest = children;
    let mut out: Vec<DirectoryEntry> = Vec::new();
    proof {
        assert(entry_views(out@) =~= Seq::<EntryView>::empty());
    }
    while rest.len() > 0
        invariant
            is_sorted(entry_views(out@)),
            out@.len() + rest@.len() <= all.len(),
            all.len() == n,
            forall|k: int|
                0 <= k < entry_views(out@).len() ==> is_listed_name(
                    #[trigger] entry_views(out@)[k].name,
                ),
            entry_views(out@).to_multiset().add(listed(rest@).to_multiset()) == listed(
                all,
            ).to_multiset(),
        decreases rest@.len(),
    {
        let ghost before = rest@;
        let ghost out_before = entry_views(out@);
        let c = rest.pop();
        assert(rest@ =~= before.drop_last());
        match c {
            Some(Some(e)) => {
                if is_listed(&e.name) {
                    let ghost ev = e@;
                    let p = insert_sorted(&mut out, e);
                    proof {
                        let now = entry_views(out@);
                        assert(listed(before) == listed(rest@).push(ev));
                        assert(now.to_multiset() == out_before.to_multiset().insert(ev));
                        assert(listed(before).to_multiset() == listed(rest@).to_multiset().insert(ev));
                        assert(now.to_multiset().add(listed(rest@).to_multiset()) =~= out_before.to_multiset().add(
                            listed(before).to_multiset(),
                        ));
                        assert forall|k: int| 0 <= k < now.len() implies is_listed_name(
                            #[trigger] now[k].name,
                        ) by {
                            if k < p {
                                assert(now[k] == out_before[k]);
                            } else if k > p {
                                assert(now[k] == out_before[k - 1]);
                            }
                        }
                    }
                } else {
                    assert(listed(before) == listed(rest@));
                }
            },
            _ => {
                assert(listed(before) == listed(rest@));
            },
        }
    }
    proof {
        assert(listed(rest@) =~= Seq::<EntryView>::empty());
        assert(listed(rest@).to_multiset() =~= Multiset::<EntryView>::empty());
        assert(entry_views(out@).to_multiset() =~= listed(all).to_multiset());
    }
    Ok(out)
}

} // verus!

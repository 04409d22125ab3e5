use vstd::prelude::*;
use vstd::string::StrSliceExecFns;
use crate::order::{name_le, name_le_exec, lemma_name_le_total, lemma_name_le_transitive};

verus! {

/// One immediate child of a listed directory.
#[derive(Debug, PartialEq, Eq)]
pub struct DirectoryEntry {
    /// The child's full path, as the host joins paths.
    pub path: String,
    /// The final path component.
    pub name: String,
    /// Whether the child was a directory when it was listed.
    pub is_directory: bool,
}

/// What a `DirectoryEntry` holds, as mathematical values.
pub ghost struct EntryView {
    pub path: Seq<char>,
    pub name: Seq<char>,
    pub is_directory: bool,
}

impl View for DirectoryEntry {
    type V = EntryView;

    open spec fn view(&self) -> EntryView {
        EntryView { path: self.path@, name: self.name@, is_directory: self.is_directory }
    }
}

/// The views of a sequence of entries.
pub open spec fn entry_views(s: Seq<DirectoryEntry>) -> Seq<EntryView> {
    s.map_values(|e: DirectoryEntry| e@)
}

/// A name that a listing shows: not empty, and not hidden (leading `.`).
pub open spec fn is_listed_name(name: Seq<char>) -> bool {
    name.len() > 0 && name[0] != '.'
}

/// Listing order: directories before files, then names in ordinal order.
pub open spec fn precedes(a: EntryView, b: EntryView) -> bool {
    (a.is_directory && !b.is_directory) || (a.is_directory == b.is_directory && name_le(
        a.name,
        b.name,
    ))
}

/// Sorted in listing order: no file comes before a directory, and within each
/// group names ascend in ordinal order.
pub open spec fn is_sorted(s: Seq<EntryView>) -> bool {
    forall|i: int, j: int| 0 <= i < j < s.len() ==> #[trigger] precedes(s[i], s[j])
}

/// Any two entries are ordered one way or the other.
pub proof fn lemma_precedes_total(a: EntryView, b: EntryView)
    ensures
        precedes(a, b) || precedes(b, a),
{
    lemma_name_le_total(a.name, b.name);
}

/// Listing order is transitive.
pub proof fn lemma_precedes_transitive(a: EntryView, b: EntryView, c: EntryView)
    requires
        precedes(a, b),
        precedes(b, c),
    ensures
        precedes(a, c),
{
    if a.is_directory == b.is_directory && b.is_directory == c.is_directory {
        lemma_name_le_transitive(a.name, b.name, c.name);
    }
}

/// Whether a listing shows an entry of this name.
pub fn is_listed(name: &String) -> (r: bool)
    ensures
        r == is_listed_name(name@),
{
    name.as_str().unicode_len() > 0 && name.as_str().get_char(0) != '.'
}

/// Whether `a` comes no later than `b` in listing order.
pub fn entry_precedes(a: &DirectoryEntry, b: &DirectoryEntry) -> (r: bool)
    ensures
        r == precedes(a@, b@),
{
    if a.is_directory != b.is_directory {
        a.is_directory
    } else {
        name_le_exec(&a.name, &b.name)
    }
}

} // verus!

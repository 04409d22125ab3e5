//! A small filesystem facade: the decisions behind reading, writing and
//! listing files, kept apart from the system calls that gather their inputs.

mod entry;
mod error;
mod listing;
mod order;

pub use entry::{
    entry_precedes, entry_views, is_listed, is_listed_name, is_sorted, lemma_precedes_total,
    lemma_precedes_transitive, precedes, DirectoryEntry, EntryView,
};
pub use error::{
    message_of, open_error, open_error_of, read_error, read_error_of, read_failure_message,
    read_prefix, write_error, write_error_of, FsError, FsErrorView, OsErrorKind,
};
pub use listing::{
    kind_of, lemma_validates_iff_directory, list_directory, listed, listing_path, path_kind,
    validate_path, PathKind,
};
pub use order::{lemma_name_le_total, lemma_name_le_transitive, name_le, name_le_exec};

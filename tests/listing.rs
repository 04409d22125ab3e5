use fs_facade::{
    entry_precedes, is_listed, list_directory, listing_path, name_le_exec, path_kind,
    validate_path, DirectoryEntry, FsError, OsErrorKind, PathKind,
};

fn child(dir: &str, name: &str, is_directory: bool) -> Option<DirectoryEntry> {
    Some(DirectoryEntry {
        path: format!("{}/{}", dir, name),
        name: name.to_string(),
        is_directory,
    })
}

fn names(entries: &[DirectoryEntry]) -> Vec<String> {
    entries.iter().map(|e| e.name.clone()).collect()
}

#[test]
fn mixed_directory_lists_directories_first_then_names() {
    let children = vec![
        child("d", "b.txt", false),
        child("d", "A", true),
        child("d", ".hidden", false),
        child("d", "a.txt", false),
    ];
    let out = list_directory(PathKind::Directory, Ok(children)).unwrap();
    assert_eq!(names(&out), vec!["A", "a.txt", "b.txt"]);
    assert!(out[0].is_directory);
    assert_eq!(out[0].path, "d/A");
    assert_eq!(out[2].path, "d/b.txt");
}

#[test]
fn listing_a_file_is_not_a_directory() {
    let kind = path_kind(true, false);
    assert_eq!(kind, PathKind::File);
    let r = list_directory(kind, Ok(vec![child("f", "x", false)]));
    assert_eq!(r, Err(FsError::NotADirectory));
}

#[test]
fn listing_a_missing_path_is_not_found() {
    let kind = path_kind(false, false);
    assert_eq!(kind, PathKind::Missing);
    let r = list_directory(kind, Ok(Vec::new()));
    assert_eq!(r, Err(FsError::NotFound));
}

#[test]
fn hidden_entries_never_listed() {
    let children = vec![
        child("d", ".git", true),
        child("d", ".env", false),
        child("d", "src", true),
        child("d", "..", true),
    ];
    let out = list_directory(PathKind::Directory, Ok(children)).unwrap();
    assert_eq!(names(&out), vec!["src"]);
    assert!(out.iter().all(|e| !e.name.starts_with('.')));
}

#[test]
fn failed_children_are_skipped() {
    let children = vec![None, child("d", "z", false), None, child("d", "y", true)];
    let out = list_directory(PathKind::Directory, Ok(children)).unwrap();
    assert_eq!(names(&out), vec!["y", "z"]);
}

#[test]
fn empty_directory_lists_nothing() {
    let out = list_directory(PathKind::Directory, Ok(Vec::new())).unwrap();
    assert!(out.is_empty());
}

#[test]
fn result_is_sorted_on_a_larger_directory() {
    let raw = [
        ("zeta", false),
        ("Beta", true),
        ("alpha", false),
        ("beta", true),
        ("Alpha", false),
        ("alp", false),
        ("émigré", false),
        ("_x", true),
        ("10", false),
        ("9", false),
    ];
    let children: Vec<Option<DirectoryEntry>> =
        raw.iter().map(|(n, d)| child("p", n, *d)).collect();
    let out = list_directory(PathKind::Directory, Ok(children)).unwrap();
    assert_eq!(
        names(&out),
        vec!["Beta", "_x", "beta", "10", "9", "Alpha", "alp", "alpha", "zeta", "émigré"]
    );
    for w in out.windows(2) {
        assert!(!( !w[0].is_directory && w[1].is_directory));
        if w[0].is_directory == w[1].is_directory {
            assert!(w[0].name.as_bytes() <= w[1].name.as_bytes());
        }
    }
}

#[test]
fn names_compare_ordinally() {
    let s = |x: &str| x.to_string();
    assert!(name_le_exec(&s("B"), &s("a")));
    assert!(!name_le_exec(&s("a"), &s("B")));
    assert!(name_le_exec(&s("a"), &s("ab")));
    assert!(!name_le_exec(&s("ab"), &s("a")));
    assert!(name_le_exec(&s("same"), &s("same")));
    assert!(name_le_exec(&s(""), &s("")));
    assert!(name_le_exec(&s("z"), &s("é")));
    assert!(!name_le_exec(&s("é"), &s("z")));
}

#[test]
fn directories_precede_files() {
    let dir = DirectoryEntry { path: "p/z".to_string(), name: "z".to_string(), is_directory: true };
    let file = DirectoryEntry { path: "p/a".to_string(), name: "a".to_string(), is_directory: false };
    assert!(entry_precedes(&dir, &file));
    assert!(!entry_precedes(&file, &dir));
}

#[test]
fn listed_names_exclude_hidden_and_empty() {
    assert!(is_listed(&"a.txt".to_string()));
    assert!(!is_listed(&".hidden".to_string()));
    assert!(!is_listed(&"".to_string()));
    assert!(is_listed(&"a.".to_string()));
}

#[test]
fn absent_listing_path_is_working_directory() {
    assert_eq!(listing_path(None), ".");
    assert_eq!(listing_path(Some("/tmp".to_string())), "/tmp");
}

#[test]
fn validate_accepts_only_directories() {
    assert!(!validate_path(path_kind(false, false)));
    assert!(!validate_path(path_kind(true, false)));
    assert!(validate_path(path_kind(true, true)));
    assert_eq!(path_kind(true, true), PathKind::Directory);
}

#[test]
fn directory_that_cannot_be_opened_fails() {
    let denied = list_directory(
        PathKind::Directory,
        Err((OsErrorKind::PermissionDenied, "Permission denied (os error 13)".to_string())),
    );
    assert_eq!(denied, Err(FsError::PermissionDenied("Permission denied (os error 13)".to_string())));
    let other = list_directory(PathKind::Directory, Err((OsErrorKind::Other, "I/O error".to_string())));
    assert_eq!(other, Err(FsError::IoError("I/O error".to_string())));
    let file = list_directory(PathKind::File, Err((OsErrorKind::Other, "I/O error".to_string())));
    assert_eq!(file, Err(FsError::NotADirectory));
}

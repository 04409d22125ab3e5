use vstd::prelude::*;
use vstd::string::StringExecFns;

verus! {

/// Why an operation of the facade failed.
#[derive(Debug, PartialEq, Eq)]
pub enum FsError {
    /// The path to list does not exist.
    NotFound,
    /// The path to list exists but is not a directory.
    NotADirectory,
    /// The system refused access; carries its message.
    PermissionDenied(String),
    /// Any other failure of the system while reading or writing; carries its message.
    IoError(String),
    /// The file read is not valid UTF-8; carries the system's message.
    EncodingError(String),
}

/// The class of a failure that the system reported for a read or a write.
#[derive(Clone, Copy, Debug, PartialEq, Eq, Structural)]
pub enum OsErrorKind {
    NotFound,
    PermissionDenied,
    InvalidData,
    Other,
}

/// The error that a failed read reports, keeping the system's message.
pub open spec fn read_error_of(kind: OsErrorKind, message: Seq<char>) -> FsErrorView {
    match kind {
        OsErrorKind::PermissionDenied => FsErrorView::PermissionDenied(message),
        OsErrorKind::InvalidData => FsErrorView::EncodingError(message),
        _ => FsErrorView::IoError(message),
    }
}

/// The error that a failed write reports, keeping the system's message. A
/// missing parent directory is an I/O failure: parents are never created.
pub open spec fn write_error_of(kind: OsErrorKind, message: Seq<char>) -> FsErrorView {
    match kind {
        OsErrorKind::PermissionDenied => FsErrorView::PermissionDenied(message),
        _ => FsErrorView::IoError(message),
    }
}

/// The error that a listing reports when the directory cannot be opened for
/// enumeration, keeping the system's message.
pub open spec fn open_error_of(kind: OsErrorKind, message: Seq<char>) -> FsErrorView {
    match kind {
        OsErrorKind::PermissionDenied => FsErrorView::PermissionDenied(message),
        _ => FsErrorView::IoError(message),
    }
}

/// What an `FsError` holds, as mathematical values.
pub ghost enum FsErrorView {
    NotFound,
    NotADirectory,
    PermissionDenied(Seq<char>),
    IoError(Seq<char>),
    EncodingError(Seq<char>),
}

impl View for FsError {
    type V = FsErrorView;

    open spec fn view(&self) -> FsErrorView {
        match self {
            FsError::NotFound => FsErrorView::NotFound,
            FsError::NotADirectory => FsErrorView::NotADirectory,
            FsError::PermissionDenied(m) => FsErrorView::PermissionDenied(m@),
            FsError::IoError(m) => FsErrorView::IoError(m@),
            FsError::EncodingError(m) => FsErrorView::EncodingError(m@),
        }
    }
}

/// The text that reports an error: the system's message where there is one.
pub open spec fn message_of(e: FsErrorView) -> Seq<char> {
    match e {
        FsErrorView::NotFound => "Path does not exist"@,
        FsErrorView::NotADirectory => "Path is not a directory"@,
        FsErrorView::PermissionDenied(m) => m,
        FsErrorView::IoError(m) => m,
        FsErrorView::EncodingError(m) => m,
    }
}

/// The words put before the message of a failed read ("file read error").
pub open spec fn read_prefix() -> Seq<char> {
    "ファイル読み込みエラー: "@
}

impl FsError {
    /// The text that reports this error.
    pub fn message(&self) -> (r: String)
        ensures
            r@ == message_of(self@),
    {
        match self {
            FsError::NotFound => String::from_str("Path does not exist"),
            FsError::NotADirectory => String::from_str("Path is not a directory"),
            FsError::PermissionDenied(m) => m.clone(),
            FsError::IoError(m) => m.clone(),
            FsError::EncodingError(m) => m.clone(),
        }
    }
}

/// The text that reports a failed read: the read prefix, then the message.
pub fn read_failure_message(e: &FsError) -> (r: String)
    ensures
        r@ == read_prefix() + message_of(e@),
{
    let m = e.message();
    String::from_str("ファイル読み込みエラー: ").concat(m.as_str())
}

/// Classifies a failure of reading a whole file as text.
pub fn read_error(kind: OsErrorKind, message: String) -> (r: FsError)
    ensures
        r@ == read_error_of(kind, message@),
{
    match kind {
        OsErrorKind::PermissionDenied => FsError::PermissionDenied(message),
        OsErrorKind::InvalidData => FsError::EncodingError(message),
        _ => FsError::IoError(message),
    }
}

/// Classifies a failure of writing a whole file.
pub fn write_error(kind: OsErrorKind, message: String) -> (r: FsError)
    ensures
        r@ == write_error_of(kind, message@),
{
    match kind {
        OsErrorKind::PermissionDenied => FsError::PermissionDenied(message),
        _ => FsError::IoError(message),
    }
}

/// Classifies a failure of opening a directory for enumeration.
pub fn open_error(kind: OsErrorKind, message: String) -> (r: FsError)
    ensures
        r@ == open_error_of(kind, message@),
{
    match kind {
        OsErrorKind::PermissionDenied => FsError::PermissionDenied(message),
        _ => FsError::IoError(message),
    }
}

} // verus!

//! Structured errors: a stable category and a human-readable detail.

use vstd::prelude::*;
use vstd::string::*;

verus! {

/// The stable category of an error.
#[derive(Debug, Clone, Copy, PartialEq, Eq, Structural)]
pub enum ErrorInner {
    // I/O
    FailedToReadFileOrDir,
    FailedToWriteFileOrDir,
    FailedToCreateFileOrDir,
    FailedToRemoveFileOrDir,
    FileOrDirNotFound,
    FiledOrDirAlreadyExists,
    IOError,
    // standard streams and command channel
    FailedToWriteStdin,
    FailedToReadStdout,
    StdinNotOpen,
    StdoutNotOpen,
    RconNotOpen,
    RconError,
    FailedToAcquireLock,
    // network
    FailedToUpload,
    FailedToDownload,
    // instance operations
    InvalidInstanceState,
    InstanceNotFound,
    PortInUse,
    // configuration files
    MalformedFile,
    FieldNotFound,
    ValueNotFound,
    TypeMismatch,
    // version strings
    MalformedVersionString,
    VersionNotFound,
    // macros
    FailedToRun,
    MacroNotFound,
    // processes
    FailedToExecute,
    FailedToAcquireStdin,
    FailedToAcquireStdout,
    FailedToAcquireStderr,
    // remote interfaces
    APIChanged,
    UnsupportedOperation,
    MalformedRequest,
    // users
    UserNotFound,
    UsernameAlreadyExists,
    Unauthorized,
    PermissionDenied,
    // database
    DBInitError,
    DBWriteError,
    DBFetchError,
    DBPoolError,
    // port forwarding
    GatewayError,
    // generic
    NotFound,
    InternalError,
}

/// The HTTP status that a category is reported with.
pub open spec fn status_of(inner: ErrorInner) -> u16 {
    match inner {
        ErrorInner::MalformedRequest => 400,
        ErrorInner::Unauthorized => 401,
        ErrorInner::PermissionDenied => 403,
        ErrorInner::FileOrDirNotFound => 404,
        ErrorInner::NotFound => 404,
        _ => 500,
    }
}

/// An error as the caller sees it.
#[derive(Debug)]
pub struct Error {
    pub inner: ErrorInner,
    pub detail: String,
}

/// An error as a mathematical value.
pub struct ErrorView {
    pub inner: ErrorInner,
    pub detail: Seq<char>,
}

impl View for Error {
    type V = ErrorView;

    open spec fn view(&self) -> ErrorView {
        ErrorView { inner: self.inner, detail: self.detail@ }
    }
}

impl Clone for Error {
    fn clone(&self) -> (copy: Error)
        ensures
            copy@ == self@,
    {
        Error { inner: self.inner, detail: self.detail.clone() }
    }
}

/// What `Error::message` renders in front of the detail.
pub open spec fn message_prefix() -> Seq<char> {
    "Error: "@
}

impl Error {
    /// An error of category `inner` with the text of `detail`.
    pub fn new(inner: ErrorInner, detail: &str) -> (e: Error)
        ensures
            e@ == (ErrorView { inner, detail: detail@ }),
    {
        Error { inner, detail: String::from_str(detail) }
    }

    /// The status code of the response that carries this error.
    pub fn status_code(&self) -> (code: u16)
        ensures
            code == status_of(self.inner),
    {
        match self.inner {
            ErrorInner::MalformedRequest => 400,
            ErrorInner::Unauthorized => 401,
            ErrorInner::PermissionDenied => 403,
            ErrorInner::FileOrDirNotFound => 404,
            ErrorInner::NotFound => 404,
            _ => 500,
        }
    }

    /// The one-line rendering of the error: `Error: ` and the detail.
    pub fn message(&self) -> (text: String)
        ensures
            text@ == message_prefix() + self.detail@,
    {
        let head = String::from_str("Error: ");
        head.concat(self.detail.as_str())
    }
}

} // verus!

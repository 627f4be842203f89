//! The errors of the library, as plain data.
use vstd::prelude::*;
use vstd::string::*;

verus! {

/// What can go wrong with a call into an isolated library.
#[derive(Debug, PartialEq)]
pub enum FFIError {
    /// No Main Zygote has been started in this process.
    ZygoteNotInitialized,
    /// The call was made outside any scope, so no clone is there to serve it.
    NoActiveZygoteScope,
    /// The clone died or its channel broke before it answered.
    ZygoteCommunicationFailed(String),
    /// The library handle is no longer registered.
    LibraryNotFound { libraryPath: String },
    /// The clone could not load the library.
    LibraryLoadFailed { libraryPath: String, reason: String },
    /// The library has no such function.
    SymbolNotFound { functionName: String, reason: String },
    /// The arguments do not form a valid call.
    BadArgument(String),
    /// Anything else, in words.
    Other(String),
}

/// What can go wrong with carrying a callback across the process boundary.
#[derive(Debug, PartialEq)]
pub enum CallError {
    /// The callback could not be turned into bytes.
    Encode(String),
    /// The bytes do not hold a callback.
    Decode(String),
}

/// The classes of failure of process and channel operations.
#[derive(Debug, Clone, Copy, PartialEq, Eq, Structural)]
pub enum ErrorKind {
    NotFound,
    PermissionDenied,
    BrokenPipe,
    AlreadyExists,
    WouldBlock,
    InvalidInput,
    TimedOut,
    Interrupted,
    OutOfMemory,
    Unsupported,
    /// None of these.
    Other,
}

/// A failed process or channel operation.
#[derive(Debug, PartialEq)]
pub struct IoError {
    /// Its class.
    pub kind: ErrorKind,
    /// Its description.
    pub message: String,
}

impl IoError {
    /// Whether this error has class `kind` and the description `message`.
    pub open spec fn says(&self, kind: ErrorKind, message: Seq<char>) -> bool {
        self.kind == kind && self.message@ == message
    }

    /// An error of class `kind`.
    pub fn new(kind: ErrorKind, message: &str) -> (error: Self)
        ensures
            error.says(kind, message@),
    {
        IoError { kind, message: message.to_owned() }
    }

    /// An error of no particular class.
    pub fn other(message: &str) -> (error: Self)
        ensures
            error.says(ErrorKind::Other, message@),
    {
        IoError { kind: ErrorKind::Other, message: message.to_owned() }
    }

    /// An error of class `kind` whose description is `prefix` and then `cause`.
    pub fn because(kind: ErrorKind, prefix: &str, cause: &str) -> (error: Self)
        ensures
            error.says(kind, prefix@ + cause@),
    {
        let mut message: String = prefix.to_owned();
        message.append(cause);
        IoError { kind, message }
    }
}

/// An error says its class and its description, and nothing else.
pub proof fn errorsSayWhatTheyHold(error: IoError, kind: ErrorKind, message: Seq<char>)
    ensures
        error.says(error.kind, error.message@),
        error.says(kind, message) ==> error.kind == kind && error.message@ == message,
{
}

} // verus!

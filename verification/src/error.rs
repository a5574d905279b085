//! Failures that the library reports, and what a caller has found on disk.

use vstd::prelude::*;
use crate::text::{concat2, owned};

verus! {

/// The five ways an operation can fail.
#[derive(Clone, Copy, Debug, PartialEq, Eq, Structural)]
pub enum ErrorKind {
    /// An expected file or directory is absent.
    NotFound,
    /// A document is malformed, or lacks a field that must be there.
    Parse,
    /// The file system refused to read, create, copy, write or delete.
    Io,
    /// A background kind or a game preset that the library does not know.
    UnsupportedInput,
    /// A request failed or was answered with an error.
    Network,
}

/// A failure: its kind, and a message that names the offending value.
#[derive(Debug, PartialEq, Eq)]
pub struct LauncherError {
    pub kind: ErrorKind,
    pub message: String,
}

impl LauncherError {
    /// Whether this is a failure of kind `kind` whose message reads `message`.
    pub open spec fn is(self, kind: ErrorKind, message: Seq<char>) -> bool {
        self.kind == kind && self.message@ == message
    }

    /// A failure whose message is `message`.
    pub fn plain(kind: ErrorKind, message: &str) -> (e: LauncherError)
        ensures
            e.is(kind, message@),
    {
        LauncherError { kind, message: owned(message) }
    }

    /// A failure whose message is `context` followed by `detail`.
    pub fn new(kind: ErrorKind, context: &str, detail: &str) -> (e: LauncherError)
        ensures
            e.is(kind, context@ + detail@),
    {
        LauncherError { kind, message: concat2(context, detail) }
    }
}

/// What a caller found where a document is kept.
#[derive(Debug, PartialEq, Eq)]
pub enum Stored<T> {
    /// No file is there.
    Missing,
    /// A file is there and could not be read; the text says why.
    Unreadable(String),
    /// A file is there and does not hold a document of the expected shape;
    /// the text says why.
    Malformed(String),
    /// The document that the file holds.
    Loaded(T),
}

} // verus!

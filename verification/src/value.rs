//! The value reader: turns the outcome of reading one small text file into
//! the value it holds, or into a failure that says which file it was.

use vstd::prelude::*;
use vstd::string::*;
use crate::path::{join, join_name};
use crate::text::{trim_end, trim_trailing};

verus! {

/// The broad reason why the operating system refused a file operation.
#[derive(Clone, Copy, Debug, PartialEq, Eq, Structural)]
pub enum FailureKind {
    /// The file or directory does not exist.
    NotFound,
    /// The caller lacks the rights to open it.
    PermissionDenied,
    /// The file was read but its contents are not valid text.
    InvalidText,
    /// Anything else.
    Other,
}

/// A failed file operation, as the caller observed it.
#[derive(Clone, Copy, Debug, PartialEq, Eq, Structural)]
pub struct IoFailure {
    pub kind: FailureKind,
    /// The error number of the operating system, where it gave one.
    pub os_code: Option<i32>,
}

/// What reading a file gave before any interpretation: its whole contents,
/// or the failure.
pub type RawRead = Result<String, IoFailure>;

/// A value that could not be read.
#[derive(Debug, PartialEq, Eq)]
pub struct ReadError {
    /// The file that was asked for.
    pub path: Vec<u8>,
    pub cause: IoFailure,
}

/// The mathematical content of a [`ReadError`].
pub struct ReadErrorView {
    pub path: Seq<u8>,
    pub cause: IoFailure,
}

impl View for ReadError {
    type V = ReadErrorView;

    open spec fn view(&self) -> ReadErrorView {
        ReadErrorView { path: self.path@, cause: self.cause }
    }
}

/// A value of the firmware as far as it could be read.  A failure here is
/// an ordinary outcome: some values are readable by privileged users only.
pub type Value = Result<String, ReadError>;

/// The mathematical content of a [`Value`].
pub type ValueView = Result<Seq<char>, ReadErrorView>;

/// The content of a raw read.
pub open spec fn raw_view(raw: RawRead) -> Result<Seq<char>, IoFailure> {
    match raw {
        Ok(text) => Ok(text@),
        Err(failure) => Err(failure),
    }
}

/// The content of a value.
pub open spec fn value_view(value: Value) -> ValueView {
    match value {
        Ok(text) => Ok(text@),
        Err(error) => Err(error@),
    }
}

/// The value that a raw read of the file at `path` stands for: the text
/// without its trailing whitespace, or the failure together with the path.
pub open spec fn value_of(path: Seq<u8>, raw: Result<Seq<char>, IoFailure>) -> ValueView {
    match raw {
        Ok(text) => Ok(trim_end(text)),
        Err(failure) => Err(ReadErrorView { path, cause: failure }),
    }
}

/// Interprets the outcome `raw` of reading the file `file_name` in
/// `directory`.  Trailing whitespace and newlines are insignificant and are
/// dropped; everything before them is kept verbatim.  Every failure comes
/// back as a value.
pub fn read_value(directory: &[u8], file_name: &str, raw: RawRead) -> (r: Value)
    ensures
        value_view(r) == value_of(join(directory@, file_name.spec_bytes()), raw_view(raw)),
{
    match raw {
        Ok(text) => Ok(trim_trailing(text.as_str())),
        Err(failure) => Err(ReadError { path: join_name(directory, file_name), cause: failure }),
    }
}

} // verus!

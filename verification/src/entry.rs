//! Directory entries and what can keep one out of the results of an
//! enumeration.

use vstd::prelude::*;
use crate::field::{FieldError, FieldErrorView};
use crate::value::{IoFailure, Value, ValueView, value_view};

verus! {

/// What a directory listing says of one of its entries.
#[derive(Debug, PartialEq, Eq)]
pub struct DirectoryEntry {
    pub name: Vec<u8>,
    /// Whether the entry is itself a directory, or why that is unknown.
    pub is_dir: Result<bool, IoFailure>,
}

/// The content of a directory entry.
pub open spec fn entry_view(entry: Result<DirectoryEntry, IoFailure>) -> Result<
    (Seq<u8>, Result<bool, IoFailure>),
    IoFailure,
> {
    match entry {
        Ok(e) => Ok((e.name@, e.is_dir)),
        Err(failure) => Err(failure),
    }
}

/// Why a directory entry does not appear among the results of an
/// enumeration.
#[derive(Debug, PartialEq, Eq)]
pub enum SkipReason {
    /// The entry itself could not be read from the directory.
    Entry(IoFailure),
    /// The kind of the entry could not be told.
    Kind(IoFailure),
    /// A required field is missing, unreadable or not a number.
    Field(FieldError),
    /// The type of the attribute is none of the known ones.
    UnknownType(String),
}

/// The mathematical content of a [`SkipReason`].
pub enum SkipReasonView {
    Entry(IoFailure),
    Kind(IoFailure),
    Field(FieldErrorView),
    UnknownType(Seq<char>),
}

impl View for SkipReason {
    type V = SkipReasonView;

    open spec fn view(&self) -> SkipReasonView {
        match self {
            SkipReason::Entry(failure) => SkipReasonView::Entry(*failure),
            SkipReason::Kind(failure) => SkipReasonView::Kind(*failure),
            SkipReason::Field(error) => SkipReasonView::Field(error@),
            SkipReason::UnknownType(text) => SkipReasonView::UnknownType(text@),
        }
    }
}

/// A directory that could not be listed.  Nothing of the directory is
/// known then, so the whole enumeration fails.
#[derive(Debug, PartialEq, Eq)]
pub struct EnumerationError {
    /// The directory that was to be listed.
    pub path: Vec<u8>,
    pub cause: IoFailure,
}

/// The mathematical content of an [`EnumerationError`].
pub struct EnumerationErrorView {
    pub path: Seq<u8>,
    pub cause: IoFailure,
}

impl View for EnumerationError {
    type V = EnumerationErrorView;

    open spec fn view(&self) -> EnumerationErrorView {
        EnumerationErrorView { path: self.path@, cause: self.cause }
    }
}

/// The contents of a list of skip reasons.
pub open spec fn reasons_view(reasons: Seq<SkipReason>) -> Seq<SkipReasonView> {
    reasons.map_values(|reason: SkipReason| reason@)
}

/// The contents of a list of values.
pub open spec fn values_view(values: Seq<Value>) -> Seq<ValueView> {
    values.map_values(|value: Value| value_view(value))
}

/// The text of a value that was read.
pub(crate) fn text_of(value: &Value) -> (r: &str)
    requires
        value is Ok,
    ensures
        r@ == value_view(*value)->Ok_0,
{
    match value {
        Ok(text) => text.as_str(),
        Err(_) => vstd::pervasive::unreached(),
    }
}

} // verus!

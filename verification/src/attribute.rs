//! Attributes: the typed description of one firmware setting.

use vstd::prelude::*;
use crate::device::attribute_directory;
use crate::entry::{SkipReason, SkipReasonView};
use crate::layout::Field;
use crate::path::{copy_bytes, join_path, join_name};
use crate::value::{IoFailure, RawRead, Value, ValueView, raw_view, read_value, value_of, value_view};

verus! {

/// The type of an attribute and the constraints that come with it.  The
/// three kinds are all there is: a setting of any other kind is not listed.
#[derive(Debug, PartialEq, Eq)]
pub enum AttributeType {
    Integer { min: i64, max: i64, step: u64 },
    String { min_length: u64, max_length: u64 },
    Enumeration { possible_values: Vec<String> },
}

/// The mathematical content of an [`AttributeType`].
pub enum AttributeTypeView {
    Integer { min: i64, max: i64, step: u64 },
    String { min_length: u64, max_length: u64 },
    Enumeration { possible_values: Seq<Seq<char>> },
}

impl View for AttributeType {
    type V = AttributeTypeView;

    open spec fn view(&self) -> AttributeTypeView {
        match self {
            AttributeType::Integer { min, max, step } => AttributeTypeView::Integer {
                min: *min,
                max: *max,
                step: *step,
            },
            AttributeType::String { min_length, max_length } => AttributeTypeView::String {
                min_length: *min_length,
                max_length: *max_length,
            },
            AttributeType::Enumeration { possible_values } => AttributeTypeView::Enumeration {
                possible_values: possible_values.deep_view(),
            },
        }
    }
}

/// One firmware setting as it was found on an enumeration.
#[derive(Debug, PartialEq, Eq)]
pub struct Attribute {
    /// The directory of the device that the attribute belongs to.  It only
    /// serves to find the attribute's files again.
    pub device_path: Vec<u8>,
    /// The name of the attribute's directory, unique within its device.
    pub name: Vec<u8>,
    pub tpe: AttributeType,
    /// The current value, or why it could not be read.
    pub current_value: Value,
    /// The default value, or why it could not be read.
    pub default_value: Value,
    pub display_name: String,
    pub display_name_lang: String,
}

/// The mathematical content of an [`Attribute`].
pub struct AttributeView {
    pub device_path: Seq<u8>,
    pub name: Seq<u8>,
    pub tpe: AttributeTypeView,
    pub current_value: ValueView,
    pub default_value: ValueView,
    pub display_name: Seq<char>,
    pub display_name_lang: Seq<char>,
}

impl View for Attribute {
    type V = AttributeView;

    open spec fn view(&self) -> AttributeView {
        AttributeView {
            device_path: self.device_path@,
            name: self.name@,
            tpe: self.tpe@,
            current_value: value_view(self.current_value),
            default_value: value_view(self.default_value),
            display_name: self.display_name@,
            display_name_lang: self.display_name_lang@,
        }
    }
}

/// What became of one entry of the `attributes` directory.
#[derive(Debug, PartialEq, Eq)]
pub enum AttributeEntry {
    /// The entry describes an attribute.
    Found(Attribute),
    /// The entry is not a directory.  Stray files are no error and call for
    /// no warning.
    Ignored,
    /// The entry is left out, with the reason to report.
    Skipped(SkipReason),
}

/// The mathematical content of an [`AttributeEntry`].
pub enum AttributeEntryView {
    Found(AttributeView),
    Ignored,
    Skipped(SkipReasonView),
}

impl View for AttributeEntry {
    type V = AttributeEntryView;

    open spec fn view(&self) -> AttributeEntryView {
        match self {
            AttributeEntry::Found(attribute) => AttributeEntryView::Found(attribute@),
            AttributeEntry::Ignored => AttributeEntryView::Ignored,
            AttributeEntry::Skipped(reason) => AttributeEntryView::Skipped(reason@),
        }
    }
}

/// A whole-file overwrite that the caller is asked to perform.
#[derive(Debug, PartialEq, Eq)]
pub struct WriteRequest {
    /// The file to overwrite.
    pub path: Vec<u8>,
    /// Its new contents, byte for byte.
    pub contents: Vec<u8>,
}

/// What became of a write and of the read that follows it.
#[derive(Debug, PartialEq, Eq)]
pub enum WriteOutcome {
    /// The write failed.
    Failed(IoFailure),
    /// The write went through; the file was then read again, with this
    /// outcome.
    Written(RawRead),
}

/// A value that could not be written.
#[derive(Debug, PartialEq, Eq)]
pub struct WriteError {
    /// The file that was to be overwritten.
    pub path: Vec<u8>,
    pub cause: IoFailure,
}

/// The mathematical content of a [`WriteError`].
pub struct WriteErrorView {
    pub path: Seq<u8>,
    pub cause: IoFailure,
}

impl View for WriteError {
    type V = WriteErrorView;

    open spec fn view(&self) -> WriteErrorView {
        WriteErrorView { path: self.path@, cause: self.cause }
    }
}

impl AttributeView {
    /// The file that holds the current value of this attribute.
    pub open spec fn value_path(self) -> Seq<u8> {
        Field::CurrentValue.path_in(attribute_directory(self.device_path, self.name))
    }
}

impl Attribute {
    /// The file that holds the current value of this attribute.
    pub fn value_path(&self) -> (r: Vec<u8>)
        ensures
            r@ == self@.value_path(),
    {
        let attributes = join_name(self.device_path.as_slice(), "attributes");
        let directory = join_path(attributes.as_slice(), self.name.as_slice());
        Field::CurrentValue.file_path(directory.as_slice())
    }

    /// The write that sets this attribute to `value`.  The value is written
    /// as it is: nothing is trimmed, re-encoded or checked against the
    /// attribute's type, which is the firmware's business.
    pub fn write_request(&self, value: &[u8]) -> (r: WriteRequest)
        ensures
            r.path@ == self@.value_path(),
            r.contents@ == value@,
    {
        WriteRequest { path: self.value_path(), contents: copy_bytes(value) }
    }

    /// Records what became of the write asked for by `write_request`.
    ///
    /// After a successful write the current value is whatever the read that
    /// followed it gave, be it the value written, another one that the
    /// firmware chose, or a failure.  What was known before the write is
    /// not kept.  A failed write changes nothing and is reported.
    pub fn set_value(&mut self, outcome: WriteOutcome) -> (r: Result<(), WriteError>)
        ensures
            match outcome {
                WriteOutcome::Written(raw) => r is Ok && final(self)@ == (AttributeView {
                    current_value: value_of(old(self)@.value_path(), raw_view(raw)),
                    ..old(self)@
                }),
                WriteOutcome::Failed(failure) => r is Err && r->Err_0@ == (WriteErrorView {
                    path: old(self)@.value_path(),
                    cause: failure,
                }) && final(self)@ == old(self)@,
            },
    {
        match outcome {
            WriteOutcome::Written(raw) => {
                let attributes = join_name(self.device_path.as_slice(), "attributes");
                let directory = join_path(attributes.as_slice(), self.name.as_slice());
                self.current_value =
                read_value(directory.as_slice(), Field::CurrentValue.file_name(), raw);
                Ok(())
            },
            WriteOutcome::Failed(failure) => Err(
                WriteError { path: self.value_path(), cause: failure },
            ),
        }
    }
}

} // verus!

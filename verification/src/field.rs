//! Required fields: what makes the value of a field unusable, and the
//! numbers that usable values denote.

use vstd::prelude::*;
use crate::layout::{Field, Format};
use crate::number::{parse_decimal, parse_i64, parse_u64, parse_u8, NumberError};
use crate::path::copy_bytes;
use crate::value::{ReadError, ReadErrorView, Value, ValueView, value_view};

verus! {

/// Why a required field of an entry is unusable.
#[derive(Debug, PartialEq, Eq)]
pub enum FieldError {
    /// The file could not be read.
    Read(ReadError),
    /// The file was read but does not hold a number of the expected kind.
    Number { path: Vec<u8>, text: String, error: NumberError },
}

/// The mathematical content of a [`FieldError`].
pub enum FieldErrorView {
    Read(ReadErrorView),
    Number { path: Seq<u8>, text: Seq<char>, error: NumberError },
}

impl View for FieldError {
    type V = FieldErrorView;

    open spec fn view(&self) -> FieldErrorView {
        match self {
            FieldError::Read(error) => FieldErrorView::Read(error@),
            FieldError::Number { path, text, error } => FieldErrorView::Number {
                path: path@,
                text: text@,
                error: *error,
            },
        }
    }
}

/// The content of an optional field error.
pub open spec fn field_error_view(error: Option<FieldError>) -> Option<FieldErrorView> {
    match error {
        Some(e) => Some(e@),
        None => None,
    }
}

/// The range of numbers that a format admits.
pub open spec fn format_range(format: Format) -> (int, int) {
    match format {
        Format::Signed => (i64::MIN as int, i64::MAX as int),
        Format::Unsigned => (0, u64::MAX as int),
        Format::Flag => (0, u8::MAX as int),
        Format::Text => (0, 0),
    }
}

/// Why `text` does not fit `format`, if it does not.
pub open spec fn format_error(format: Format, text: Seq<char>) -> Option<NumberError> {
    if format == Format::Text {
        None
    } else {
        match parse_decimal(text, format_range(format).0, format_range(format).1) {
            Ok(_) => None,
            Err(error) => Some(error),
        }
    }
}

/// The number that `text` denotes in `format`; meaningful where
/// [`format_error`] finds nothing wrong.
pub open spec fn number_of(format: Format, text: Seq<char>) -> int {
    parse_decimal(text, format_range(format).0, format_range(format).1)->Ok_0
}

/// Why the value read for `field` in `directory` makes the entry unusable,
/// if it does: a required field that could not be read, or a numeric field
/// whose text is not a number in range.  An unreadable optional field is no
/// error.
pub open spec fn field_error(field: Field, directory: Seq<u8>, value: ValueView) -> Option<
    FieldErrorView,
> {
    match value {
        Err(error) => if field.is_optional() {
            None
        } else {
            Some(FieldErrorView::Read(error))
        },
        Ok(text) => match format_error(field.format(), text) {
            Some(error) => Some(
                FieldErrorView::Number {
                    path: field.path_in(directory),
                    text,
                    error,
                },
            ),
            None => None,
        },
    }
}

/// Checks the value read for `field` of the entry kept in `directory`.
pub fn check_field(field: Field, directory: &[u8], value: &Value) -> (r: Option<FieldError>)
    ensures
        field_error_view(r) == field_error(field, directory@, value_view(*value)),
{
    match value {
        Err(error) => {
            if field.optional() {
                None
            } else {
                Some(
                    FieldError::Read(
                        ReadError { path: copy_bytes(error.path.as_slice()), cause: error.cause },
                    ),
                )
            }
        },
        Ok(text) => {
            let wrong: Option<NumberError> = match field.text_format() {
                Format::Text => None,
                Format::Signed => match parse_i64(text.as_str()) {
                    Ok(_) => None,
                    Err(error) => Some(error),
                },
                Format::Unsigned => match parse_u64(text.as_str()) {
                    Ok(_) => None,
                    Err(error) => Some(error),
                },
                Format::Flag => match parse_u8(text.as_str()) {
                    Ok(_) => None,
                    Err(error) => Some(error),
                },
            };
            match wrong {
                Some(error) => Some(
                    FieldError::Number {
                        path: field.file_path(directory),
                        text: text.clone(),
                        error,
                    },
                ),
                None => None,
            }
        },
    }
}

/// The signed number that a checked field holds.
pub(crate) fn signed_number(text: &str) -> (r: i64)
    requires
        format_error(Format::Signed, text@) is None,
    ensures
        r == number_of(Format::Signed, text@),
{
    match parse_i64(text) {
        Ok(v) => v,
        Err(_) => 0,
    }
}

/// The unsigned number that a checked field holds.
pub(crate) fn unsigned_number(text: &str) -> (r: u64)
    requires
        format_error(Format::Unsigned, text@) is None,
    ensures
        r == number_of(Format::Unsigned, text@),
{
    match parse_u64(text) {
        Ok(v) => v,
        Err(_) => 0,
    }
}

} // verus!

//! The layout of the firmware-attributes tree: where devices live, which
//! directories a device has, and which files describe an entry.
//!
//! ```text
//! <root>/<device>/attributes/<attribute>/{type, display_name, ...}
//! <root>/<device>/attributes/pending_reboot
//! <root>/<device>/authentication/<method>/{is_enabled, role, ...}
//! ```

use vstd::prelude::*;
use vstd::string::*;
use crate::path::{join, join_name};

verus! {

/// One of the fixed file names that describe an entry.
#[derive(Clone, Copy, Debug, PartialEq, Eq, Structural)]
pub enum Field {
    CurrentValue,
    DefaultValue,
    DisplayName,
    DisplayNameLanguageCode,
    Type,
    PossibleValues,
    MinValue,
    MaxValue,
    ScalarIncrement,
    MinLength,
    MaxLength,
    IsEnabled,
    MinPasswordLength,
    MaxPasswordLength,
    Role,
    PendingReboot,
}

/// How the text of a field is to be understood.
#[derive(Clone, Copy, Debug, PartialEq, Eq, Structural)]
pub enum Format {
    /// Any text.
    Text,
    /// A signed 64-bit decimal number.
    Signed,
    /// An unsigned 64-bit decimal number.
    Unsigned,
    /// An unsigned 8-bit decimal number.
    Flag,
}

impl Field {
    /// The name of the file that holds this field.
    pub open spec fn name(self) -> Seq<char> {
        match self {
            Field::CurrentValue => "current_value"@,
            Field::DefaultValue => "default_value"@,
            Field::DisplayName => "display_name"@,
            Field::DisplayNameLanguageCode => "display_name_language_code"@,
            Field::Type => "type"@,
            Field::PossibleValues => "possible_values"@,
            Field::MinValue => "min_value"@,
            Field::MaxValue => "max_value"@,
            Field::ScalarIncrement => "scalar_increment"@,
            Field::MinLength => "min_length"@,
            Field::MaxLength => "max_length"@,
            Field::IsEnabled => "is_enabled"@,
            Field::MinPasswordLength => "min_password_length"@,
            Field::MaxPasswordLength => "max_password_length"@,
            Field::Role => "role"@,
            Field::PendingReboot => "pending_reboot"@,
        }
    }

    /// The name of the file that holds this field.
    pub fn file_name(self) -> (r: &'static str)
        ensures
            r@ == self.name(),
    {
        match self {
            Field::CurrentValue => "current_value",
            Field::DefaultValue => "default_value",
            Field::DisplayName => "display_name",
            Field::DisplayNameLanguageCode => "display_name_language_code",
            Field::Type => "type",
            Field::PossibleValues => "possible_values",
            Field::MinValue => "min_value",
            Field::MaxValue => "max_value",
            Field::ScalarIncrement => "scalar_increment",
            Field::MinLength => "min_length",
            Field::MaxLength => "max_length",
            Field::IsEnabled => "is_enabled",
            Field::MinPasswordLength => "min_password_length",
            Field::MaxPasswordLength => "max_password_length",
            Field::Role => "role",
            Field::PendingReboot => "pending_reboot",
        }
    }

    /// The path of the file that holds this field of the entry kept in
    /// `directory`.
    pub open spec fn path_in(self, directory: Seq<u8>) -> Seq<u8> {
        join(directory, vstd::utf8::encode_utf8(self.name()))
    }

    /// The path of the file that holds this field of the entry kept in
    /// `directory`.
    pub fn file_path(self, directory: &[u8]) -> (r: Vec<u8>)
        ensures
            r@ == self.path_in(directory@),
    {
        join_name(directory, self.file_name())
    }

    /// Whether an entry is still valid when this field cannot be read.
    /// The current and the default value are commonly readable by
    /// privileged users only; every other field is required.
    pub open spec fn is_optional(self) -> bool {
        self == Field::CurrentValue || self == Field::DefaultValue
    }

    /// Whether an entry is still valid when this field cannot be read.
    pub fn optional(self) -> (r: bool)
        ensures
            r == self.is_optional(),
    {
        match self {
            Field::CurrentValue | Field::DefaultValue => true,
            _ => false,
        }
    }

    /// How the text of this field is understood.
    pub open spec fn format(self) -> Format {
        match self {
            Field::MinValue | Field::MaxValue => Format::Signed,
            Field::ScalarIncrement
            | Field::MinLength
            | Field::MaxLength
            | Field::MinPasswordLength
            | Field::MaxPasswordLength => Format::Unsigned,
            Field::PendingReboot => Format::Flag,
            _ => Format::Text,
        }
    }

    /// How the text of this field is understood.
    pub fn text_format(self) -> (r: Format)
        ensures
            r == self.format(),
    {
        match self {
            Field::MinValue | Field::MaxValue => Format::Signed,
            Field::ScalarIncrement
            | Field::MinLength
            | Field::MaxLength
            | Field::MinPasswordLength
            | Field::MaxPasswordLength => Format::Unsigned,
            Field::PendingReboot => Format::Flag,
            _ => Format::Text,
        }
    }
}

/// The directory under which the operating system lists its devices.
pub open spec fn firmware_root() -> Seq<u8> {
    "/sys/class/firmware-attributes".spec_bytes()
}

/// The name of the directory of a device that lists its attributes.
pub open spec fn attributes_name() -> Seq<u8> {
    "attributes".spec_bytes()
}

/// The name of the directory of a device that lists its authentication
/// methods.
pub open spec fn authentication_name() -> Seq<u8> {
    "authentication".spec_bytes()
}

} // verus!

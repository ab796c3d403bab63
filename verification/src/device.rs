//! The device handle: a device name bound to its directory.

use vstd::prelude::*;
use vstd::string::*;
use crate::field::{field_error, number_of, FieldError, FieldErrorView};
use crate::layout::{attributes_name, authentication_name, firmware_root, Field, Format};
use crate::number::parse_u8;
use crate::path::{copy_bytes, join, join_name, join_path};
use crate::value::{IoFailure, RawRead, raw_view, read_value, value_of};

verus! {

/// A firmware device.  It holds no state beyond its name and the directory
/// that the name resolves to; everything else is read afresh on demand.
#[derive(Debug, PartialEq, Eq)]
pub struct Device {
    pub name: Vec<u8>,
    /// The directory of the device.
    pub path: Vec<u8>,
}

/// The directory of the device called `name`.
pub open spec fn device_root(name: Seq<u8>) -> Seq<u8> {
    join(firmware_root(), name)
}

/// The directory that lists the attributes of the device kept in `root`.
pub open spec fn attributes_directory(root: Seq<u8>) -> Seq<u8> {
    join(root, attributes_name())
}

/// The directory that lists the authentication methods of the device kept
/// in `root`.
pub open spec fn authentication_directory(root: Seq<u8>) -> Seq<u8> {
    join(root, authentication_name())
}

/// The directory of the attribute called `name` of the device kept in
/// `root`.
pub open spec fn attribute_directory(root: Seq<u8>, name: Seq<u8>) -> Seq<u8> {
    join(attributes_directory(root), name)
}

/// Whether a reboot is pending, going by the value read from the flag file
/// in `directory`: `1` means yes, every other number no.  A flag that
/// cannot be read or is no number is an error.
pub open spec fn pending_reboot(directory: Seq<u8>, raw: Result<Seq<char>, IoFailure>) -> Result<
    bool,
    FieldErrorView,
> {
    let value = value_of(Field::PendingReboot.path_in(directory), raw);
    match field_error(Field::PendingReboot, directory, value) {
        Some(error) => Err(error),
        None => Ok(number_of(Format::Flag, value->Ok_0) == 1),
    }
}

impl Device {
    /// The directory of this device.
    pub open spec fn root(&self) -> Seq<u8> {
        self.path@
    }

    /// The device called `name`.  The name is an opaque byte string; it is
    /// not checked against the filesystem.
    pub fn from(name: &[u8]) -> (device: Device)
        ensures
            device.name@ == name@,
            device.root() == device_root(name@),
    {
        Device {
            name: copy_bytes(name),
            path: join_path("/sys/class/firmware-attributes".as_bytes(), name),
        }
    }

    /// The directory of this device.
    pub fn path(&self) -> (r: &[u8])
        ensures
            r@ == self.root(),
    {
        self.path.as_slice()
    }

    /// The directory to list for the attributes of this device.
    pub fn attributes_path(&self) -> (r: Vec<u8>)
        ensures
            r@ == attributes_directory(self.root()),
    {
        join_name(self.path.as_slice(), "attributes")
    }

    /// The directory to list for the authentication methods of this device.
    pub fn authentication_path(&self) -> (r: Vec<u8>)
        ensures
            r@ == authentication_directory(self.root()),
    {
        join_name(self.path.as_slice(), "authentication")
    }

    /// The directory of the attribute called `name`.
    pub fn attribute_path(&self, name: &[u8]) -> (r: Vec<u8>)
        ensures
            r@ == attribute_directory(self.root(), name@),
    {
        let directory = self.attributes_path();
        join_path(directory.as_slice(), name)
    }

    /// The file that tells whether a reboot is pending.
    pub fn pending_reboot_path(&self) -> (r: Vec<u8>)
        ensures
            r@ == Field::PendingReboot.path_in(attributes_directory(self.root())),
    {
        let directory = self.attributes_path();
        Field::PendingReboot.file_path(directory.as_slice())
    }

    /// Whether the configuration of this device was modified so that a
    /// reboot is pending, given the outcome of reading the flag file at
    /// `pending_reboot_path()`.
    pub fn modified(&self, raw: RawRead) -> (r: Result<bool, FieldError>)
        ensures
            match pending_reboot(attributes_directory(self.root()), raw_view(raw)) {
                Ok(pending) => r == Ok::<bool, FieldError>(pending),
                Err(error) => r is Err && r->Err_0@ == error,
            },
    {
        let directory = self.attributes_path();
        match read_value(directory.as_slice(), Field::PendingReboot.file_name(), raw) {
            Ok(text) => match parse_u8(text.as_str()) {
                Ok(flag) => Ok(flag == 1),
                Err(error) => Err(
                    FieldError::Number {
                        path: Field::PendingReboot.file_path(directory.as_slice()),
                        text,
                        error,
                    },
                ),
            },
            Err(error) => Err(FieldError::Read(error)),
        }
    }
}

} // verus!

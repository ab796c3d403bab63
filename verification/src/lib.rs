//! Typed access to firmware (BIOS/EFI) settings that the operating system
//! exposes as a tree of small text files, one directory per setting.
//!
//! The library never touches the filesystem itself.  It decides which files
//! are to be read, interprets what was read, and assembles typed attribute
//! and authentication records; the caller performs the reads and writes and
//! hands the outcomes back as plain values.
//!
//! - [`value`] interprets the outcome of reading one file.
//! - [`attribute_reader`] and [`authentication_reader`] read one directory
//!   entry file by file; [`attribute_catalog`] and
//!   [`authentication_catalog`] gather the entries of a directory.
//! - [`device`] binds a device name to its directory.
//! - [`snapshot`] states what an enumeration means for a directory tree as
//!   it stands at one moment, and proves that the readers compute it.
//! - [`report`] renders the records for people.

pub mod attribute;
pub mod attribute_catalog;
pub mod attribute_reader;
pub mod authentication;
pub mod authentication_catalog;
pub mod authentication_reader;
pub mod cli;
pub mod decimal;
pub mod device;
pub mod entry;
pub mod field;
pub mod layout;
pub mod number;
pub mod path;
pub mod report;
pub mod snapshot;
pub mod text;
pub mod value;

pub use crate::attribute::{Attribute, AttributeType};
pub use crate::authentication::{Authentication, AuthenticationRole};
pub use crate::device::Device;

//! Authentication methods: the password slots of a device.

use vstd::prelude::*;
use vstd::string::*;
use crate::entry::{SkipReason, SkipReasonView};
use crate::text::same_text;

verus! {

/// What a password protects.
#[derive(Debug, PartialEq, Eq)]
pub enum AuthenticationRole {
    /// Changes to the firmware settings.
    BiosAdmin,
    /// Powering the machine on.
    PowerOn,
    /// A role that this library does not know, with its name as found.
    Unknown(String),
}

/// The mathematical content of an [`AuthenticationRole`].
pub enum AuthenticationRoleView {
    BiosAdmin,
    PowerOn,
    Unknown(Seq<char>),
}

impl View for AuthenticationRole {
    type V = AuthenticationRoleView;

    open spec fn view(&self) -> AuthenticationRoleView {
        match self {
            AuthenticationRole::BiosAdmin => AuthenticationRoleView::BiosAdmin,
            AuthenticationRole::PowerOn => AuthenticationRoleView::PowerOn,
            AuthenticationRole::Unknown(text) => AuthenticationRoleView::Unknown(text@),
        }
    }
}

/// The role that the text of a `role` file names.  A name that is not
/// known is kept as it is.
pub open spec fn role_of(text: Seq<char>) -> AuthenticationRoleView {
    if text == "bios-admin"@ {
        AuthenticationRoleView::BiosAdmin
    } else if text == "power-on"@ {
        AuthenticationRoleView::PowerOn
    } else {
        AuthenticationRoleView::Unknown(text)
    }
}

/// Whether the text of an `is_enabled` file says that the method is
/// enabled: everything but `0` does.
pub open spec fn enabled_of(text: Seq<char>) -> bool {
    text != "0"@
}

impl AuthenticationRole {
    /// The role that `text` names.
    pub fn from_text(text: &str) -> (role: AuthenticationRole)
        ensures
            role@ == role_of(text@),
    {
        if same_text(text, "bios-admin") {
            AuthenticationRole::BiosAdmin
        } else if same_text(text, "power-on") {
            AuthenticationRole::PowerOn
        } else {
            AuthenticationRole::Unknown(String::from_str(text))
        }
    }
}

/// One authentication method as it was found on an enumeration.
#[derive(Debug, PartialEq, Eq)]
pub struct Authentication {
    /// The name of the method's directory, unique within its device.
    pub name: Vec<u8>,
    pub is_enabled: bool,
    pub min_password_length: u64,
    pub max_password_length: u64,
    pub role: AuthenticationRole,
}

/// The mathematical content of an [`Authentication`].
pub struct AuthenticationView {
    pub name: Seq<u8>,
    pub is_enabled: bool,
    pub min_password_length: u64,
    pub max_password_length: u64,
    pub role: AuthenticationRoleView,
}

impl View for Authentication {
    type V = AuthenticationView;

    open spec fn view(&self) -> AuthenticationView {
        AuthenticationView {
            name: self.name@,
            is_enabled: self.is_enabled,
            min_password_length: self.min_password_length,
            max_password_length: self.max_password_length,
            role: self.role@,
        }
    }
}

/// What became of one entry of the `authentication` directory.
#[derive(Debug, PartialEq, Eq)]
pub enum AuthenticationEntry {
    /// The entry describes an authentication method.
    Found(Authentication),
    /// The entry is not a directory.
    Ignored,
    /// The entry is left out, with the reason to report.
    Skipped(SkipReason),
}

/// The mathematical content of an [`AuthenticationEntry`].
pub enum AuthenticationEntryView {
    Found(AuthenticationView),
    Ignored,
    Skipped(SkipReasonView),
}

impl View for AuthenticationEntry {
    type V = AuthenticationEntryView;

    open spec fn view(&self) -> AuthenticationEntryView {
        match self {
            AuthenticationEntry::Found(authentication) => AuthenticationEntryView::Found(
                authentication@,
            ),
            AuthenticationEntry::Ignored => AuthenticationEntryView::Ignored,
            AuthenticationEntry::Skipped(reason) => AuthenticationEntryView::Skipped(reason@),
        }
    }
}

} // verus!

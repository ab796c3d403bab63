//! The options and commands of the command-line front end, as plain values,
//! and the rule that turns `-v` and `-q` flags into a log level.

use vstd::prelude::*;

verus! {

/// How much is logged, from nothing to everything.
#[derive(Clone, Copy, Debug, PartialEq, Eq, Structural)]
pub enum LogLevel {
    Off,
    Error,
    Warn,
    Info,
    Debug,
    Trace,
}

/// What the user asks for.
#[allow(inconsistent_fields)]
#[derive(Debug, PartialEq, Eq)]
pub enum Command {
    /// Print all attributes in full, or the one that is named.
    Print { attribute: Option<Vec<u8>> },
    /// List the attributes by name and display name.
    List,
    /// Print the current value of an attribute, or its default value, or
    /// its display name.
    Get { default: bool, name: bool, attribute: Vec<u8> },
    /// Set an attribute to a value.
    SetValue { attribute: Vec<u8>, value: Vec<u8> },
    /// Print a summary of the device.
    Info,
    /// Tell whether a reboot is pending.
    NeedsReboot,
}

/// The options of one invocation.
#[derive(Debug, PartialEq, Eq)]
pub struct ProgramOptions {
    pub device_name: Vec<u8>,
    pub cmd: Option<Command>,
    /// Print version information and do nothing else.
    pub version: bool,
    /// How many times more output was asked for.
    pub verbose: i8,
    /// How many times less output was asked for.
    pub quiet: i8,
    /// The admin password to unlock the settings with.
    pub password: Option<String>,
}

/// The log level that the number `level` stands for: nothing at zero and
/// below, everything at five and above.
pub open spec fn level_of(level: int) -> LogLevel {
    if level <= 0 {
        LogLevel::Off
    } else if level == 1 {
        LogLevel::Error
    } else if level == 2 {
        LogLevel::Warn
    } else if level == 3 {
        LogLevel::Info
    } else if level == 4 {
        LogLevel::Debug
    } else {
        LogLevel::Trace
    }
}

/// The log level that the flags ask for instead of the level `default`, if
/// they ask for another one.
pub open spec fn chosen_level(default: int, verbose: int, quiet: int) -> Option<LogLevel> {
    let level = default + verbose - quiet;
    if level != default {
        Some(level_of(level))
    } else {
        None
    }
}

impl ProgramOptions {
    /// The log level to set, where the flags move it away from `default`:
    /// each `-v` raises the level by one and each `-q` lowers it by one.
    /// `None` means that the flags leave the level where it is.
    pub fn log_level_with_default(&self, default: i8) -> (r: Option<LogLevel>)
        ensures
            r == chosen_level(default as int, self.verbose as int, self.quiet as int),
    {
        let level: i16 = default as i16 + self.verbose as i16 - self.quiet as i16;
        let new_level = if level <= 0 {
            LogLevel::Off
        } else if level == 1 {
            LogLevel::Error
        } else if level == 2 {
            LogLevel::Warn
        } else if level == 3 {
            LogLevel::Info
        } else if level == 4 {
            LogLevel::Debug
        } else {
            LogLevel::Trace
        };
        if level != default as i16 {
            Some(new_level)
        } else {
            None
        }
    }
}

} // verus!

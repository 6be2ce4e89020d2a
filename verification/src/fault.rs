//! Fault taxonomy of the orchestration layer.
//!
//! Every fault is terminal from the front ends' point of view: the caller
//! prints the diagnostic behind a `FATAL:` prefix and exits non-zero.
//! There is no recovery or retry path anywhere in this layer.
//!
//! The engine's source language has no malformed texts — every character is
//! either an instruction, part of the data section, or ignored — so
//! compilation itself cannot fault and needs no variant here.

use vstd::prelude::*;

verus! {

/// A tape was rejected at load time; the variant names the tape and the
/// violated constraint.
#[derive(Debug, Clone, Copy, PartialEq, Eq)]
pub enum LoadFault {
    /// The program tape holds more cells than the machine's instruction tape.
    ProgramTooLong,
    /// The data tape holds more cells than the machine's data tape.
    DataTooLong,
}

/// The declarative configuration document is malformed.
#[derive(Debug, Clone, Copy, PartialEq, Eq)]
pub enum ParseFault {
    /// A non-blank line has no `=` separating key and value.
    MissingSeparator,
    /// A line's key is none of `source`, `input`, `max_runtime`.
    UnknownKey,
    /// A key appears on more than one line.
    DuplicateKey,
    /// A numeric field holds something other than a decimal numeral in range.
    BadNumber,
    /// The document has no `source` line.
    MissingSource,
    /// The document has no `input` line.
    MissingInput,
}

/// A runtime setting or input value cannot be represented by the machine.
#[derive(Debug, Clone, Copy, PartialEq, Eq)]
pub enum ConfigFault {
    /// The cycle count is not a decimal numeral that fits the cycle counter.
    BadCycleCount,
    /// An input value does not fit the machine's cell width.
    CellOutOfRange,
}

/// Everything that can go wrong in one invocation, in one type, so that a
/// single top-level entry point can decide exit status and message.
#[derive(Debug, PartialEq, Eq)]
pub enum Fault {
    /// A file could not be opened or read; carries the caller's description.
    FileAccess(String),
    /// The configuration document is malformed.
    Parse(ParseFault),
    /// A tape was rejected at load time.
    Load(LoadFault),
    /// A setting or input value is out of the machine's range.
    Config(ConfigFault),
}

impl Fault {
    /// Diagnostic text for the fault; the front ends print it behind a
    /// `FATAL:` prefix.
    pub fn message(&self) -> (r: String)
        ensures
            (match *self {
                Fault::FileAccess(ref m) => r@ == m@,
                Fault::Parse(ParseFault::MissingSeparator) => r@
                    == "configuration line has no `=` separator"@,
                Fault::Parse(ParseFault::UnknownKey) => r@
                    == "configuration line has an unknown key"@,
                Fault::Parse(ParseFault::DuplicateKey) => r@
                    == "configuration key given more than once"@,
                Fault::Parse(ParseFault::BadNumber) => r@
                    == "configuration field is not an unsigned decimal numeral"@,
                Fault::Parse(ParseFault::MissingSource) => r@
                    == "configuration document has no source field"@,
                Fault::Parse(ParseFault::MissingInput) => r@
                    == "configuration document has no input field"@,
                Fault::Load(LoadFault::ProgramTooLong) => r@
                    == "program tape exceeds the machine's tape capacity"@,
                Fault::Load(LoadFault::DataTooLong) => r@
                    == "data tape exceeds the machine's tape capacity"@,
                Fault::Config(ConfigFault::BadCycleCount) => r@
                    == "invalid number of cycles"@,
                Fault::Config(ConfigFault::CellOutOfRange) => r@
                    == "input value does not fit in a machine cell"@,
            }),
    {
        match self {
            Fault::FileAccess(m) => m.clone(),
            Fault::Parse(ParseFault::MissingSeparator) => {
                "configuration line has no `=` separator".to_owned()
            },
            Fault::Parse(ParseFault::UnknownKey) => {
                "configuration line has an unknown key".to_owned()
            },
            Fault::Parse(ParseFault::DuplicateKey) => {
                "configuration key given more than once".to_owned()
            },
            Fault::Parse(ParseFault::BadNumber) => {
                "configuration field is not an unsigned decimal numeral".to_owned()
            },
            Fault::Parse(ParseFault::MissingSource) => {
                "configuration document has no source field".to_owned()
            },
            Fault::Parse(ParseFault::MissingInput) => {
                "configuration document has no input field".to_owned()
            },
            Fault::Load(LoadFault::ProgramTooLong) => {
                "program tape exceeds the machine's tape capacity".to_owned()
            },
            Fault::Load(LoadFault::DataTooLong) => {
                "data tape exceeds the machine's tape capacity".to_owned()
            },
            Fault::Config(ConfigFault::BadCycleCount) => "invalid number of cycles".to_owned(),
            Fault::Config(ConfigFault::CellOutOfRange) => {
                "input value does not fit in a machine cell".to_owned()
            },
        }
    }
}

} // verus!

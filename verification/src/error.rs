//! What can go wrong in the status tools, and how it is told to the user.
use vstd::prelude::*;
use vstd::string::StringExecFns;

verus! {

/// What can go wrong in the status tools.
#[derive(Clone, Debug, PartialEq, Eq)]
pub enum Error {
    /// Reading failed; the text says how.
    Io { message: String },
    /// A text that should be a number is none.
    ParseInt { text: String },
    /// No battery stands under the path.
    NoBatteriesFound { path: String },
    /// The text names no battery info.
    InvalidInfoName { name: String },
    /// The text names no battery status.
    InvalidBatteryStatus { status: String },
    /// The path cannot be used.
    InvalidPath { path: String },
}

/// The text of an error, as it is shown to the user. A failed read or a text
/// that is no number shows what the error carries.
pub open spec fn error_text(e: Error) -> Seq<char> {
    match e {
        Error::Io { message } => message@,
        Error::ParseInt { text } => text@,
        Error::NoBatteriesFound { path } => "No batteries found in "@ + path@,
        Error::InvalidInfoName { name } => "Invalid info name \""@ + name@ + "\""@,
        Error::InvalidBatteryStatus { status } => "Invalid battery status \""@ + status@
            + "\". Expected \"Charging\", \"Discharging\", \"Not Charging\", or \"Full\" "@,
        Error::InvalidPath { path } => "Invalid path: "@ + path@,
    }
}

impl Error {
    /// The text of the error, as it is shown to the user.
    pub fn to_string(&self) -> (r: String)
        ensures
            r@ == error_text(*self),
    {
        match self {
            Error::Io { message } => message.clone(),
            Error::ParseInt { text } => text.clone(),
            Error::NoBatteriesFound { path } => String::from_str("No batteries found in ").concat(path.as_str()),
            Error::InvalidInfoName { name } => String::from_str("Invalid info name \"").concat(name.as_str()).concat(
                "\"",
            ),
            Error::InvalidBatteryStatus { status } => String::from_str("Invalid battery status \"").concat(
                status.as_str(),
            ).concat("\". Expected \"Charging\", \"Discharging\", \"Not Charging\", or \"Full\" "),
            Error::InvalidPath { path } => String::from_str("Invalid path: ").concat(path.as_str()),
        }
    }
}

} // verus!

//! The library's errors, by origin.

use vstd::prelude::*;

verus! {

/// What went wrong, by origin. Each variant carries a readable detail.
#[derive(Clone, Debug)]
pub enum Error {
    /// A filesystem operation failed.
    File(String),
    /// A YAML document could not be read or written.
    YamlConvert(String),
    /// A JSON document could not be read or mapped.
    JsonConvert(String),
    /// The caller's input is wrong in a way the caller can fix.
    User(String),
    /// Anything else, among them a failed run of the external tool.
    Custom(String),
}

/// The response status for an error: a client error for a user error, a
/// server error for the rest.
pub open spec fn status_of(e: Error) -> u16 {
    match e {
        Error::User(_) => 400,
        _ => 500,
    }
}

/// The text that heads the readable form of an error.
pub open spec fn kind_label(e: Error) -> Seq<char> {
    match e {
        Error::File(_) => "File error: "@,
        Error::YamlConvert(_) => "YAML conversion error: "@,
        Error::JsonConvert(_) => "JSON conversion error: "@,
        Error::User(_) => "User error: "@,
        Error::Custom(_) => ""@,
    }
}

pub open spec fn detail_of(e: Error) -> Seq<char> {
    match e {
        Error::File(m) => m@,
        Error::YamlConvert(m) => m@,
        Error::JsonConvert(m) => m@,
        Error::User(m) => m@,
        Error::Custom(m) => m@,
    }
}

impl Error {
    /// Whether the caller's input caused the error.
    pub fn is_user_error(&self) -> (r: bool)
        ensures
            r == (*self is User),
    {
        match self {
            Error::User(_) => true,
            _ => false,
        }
    }

    /// The response status that the error maps to.
    pub fn status_code(&self) -> (r: u16)
        ensures
            r == status_of(*self),
    {
        match self {
            Error::User(_) => 400,
            _ => 500,
        }
    }

    /// The error in readable form: its kind, then its detail.
    pub fn message(&self) -> (r: String)
        ensures
            r@ == kind_label(*self) + detail_of(*self),
    {
        let (label, detail) = match self {
            Error::File(m) => ("File error: ", m),
            Error::YamlConvert(m) => ("YAML conversion error: ", m),
            Error::JsonConvert(m) => ("JSON conversion error: ", m),
            Error::User(m) => ("User error: ", m),
            Error::Custom(m) => ("", m),
        };
        let mut out = String::from_str(label);
        out.append(detail.as_str());
        out
    }
}

} // verus!

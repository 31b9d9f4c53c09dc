//! Settings of the service, each with its default and its reading from a
//! raw setting text.

use vstd::prelude::*;

use crate::decimal::{decimal_at_most, decimal_of, decimal_string, parse_decimal};

verus! {

/// A type that wraps one value.
pub trait WrappedValue<T> {
    /// The wrapped value.
    fn value(&self) -> &T;
}

/// The port that the service listens on.
#[derive(Clone, Debug)]
pub struct Port(pub u16);

/// Where the repository lives.
#[derive(Clone, Debug)]
pub struct RepoPath(pub String);

/// The administrator's password.
#[derive(Clone, Debug)]
pub struct Password(pub String);

/// The largest request body accepted, in bytes.
#[derive(Clone, Debug)]
pub struct MaxPayloadSize(pub usize);

pub const MEBIBYTE: usize = 1048576;

impl Default for Port {
    fn default() -> (r: Port)
        ensures
            r.0 == 80,
    {
        Port(80)
    }
}

impl From<u16> for Port {
    fn from(value: u16) -> Port {
        Port(value)
    }
}

impl vstd::std_specs::convert::FromSpecImpl<u16> for Port {
    open spec fn obeys_from_spec() -> bool {
        true
    }

    open spec fn from_spec(value: u16) -> Port {
        Port(value)
    }
}

impl WrappedValue<u16> for Port {
    fn value(&self) -> &u16 {
        &self.0
    }
}

impl Port {
    /// The port in decimal.
    pub fn to_string(&self) -> (r: String)
        ensures
            r@ == decimal_of(self.0 as nat),
    {
        decimal_string(self.0 as u64)
    }

    /// The port that a setting gives: its decimal value where it is one,
    /// else the default.
    pub fn from_setting(raw: Option<&str>) -> (r: Port)
        ensures
            match raw {
                Some(s) => match decimal_at_most(s@, u16::MAX as nat) {
                    Some(v) => r.0 == v,
                    None => r.0 == 80,
                },
                None => r.0 == 80,
            },
    {
        match raw {
            Some(s) => match parse_decimal(s, u16::MAX as u64) {
                Some(v) => Port(v as u16),
                None => Port::default(),
            },
            None => Port::default(),
        }
    }
}

impl Default for RepoPath {
    fn default() -> (r: RepoPath)
        ensures
            r.0@ == "/fdroid"@,
    {
        RepoPath("/fdroid".to_owned())
    }
}

impl From<String> for RepoPath {
    fn from(value: String) -> RepoPath {
        RepoPath(value)
    }
}

impl vstd::std_specs::convert::FromSpecImpl<String> for RepoPath {
    open spec fn obeys_from_spec() -> bool {
        true
    }

    open spec fn from_spec(value: String) -> RepoPath {
        RepoPath(value)
    }
}

impl WrappedValue<String> for RepoPath {
    fn value(&self) -> &String {
        &self.0
    }
}

impl RepoPath {
    pub fn to_string(&self) -> (r: String)
        ensures
            r@ == self.0@,
    {
        self.0.clone()
    }

    /// The path that a setting gives, else the default.
    pub fn from_setting(raw: Option<&str>) -> (r: RepoPath)
        ensures
            match raw {
                Some(s) => r.0@ == s@,
                None => r.0@ == "/fdroid"@,
            },
    {
        match raw {
            Some(s) => RepoPath(s.to_owned()),
            None => RepoPath::default(),
        }
    }
}

impl Default for Password {
    fn default() -> (r: Password)
        ensures
            r.0@ == "admin"@,
    {
        Password("admin".to_owned())
    }
}

impl From<String> for Password {
    fn from(value: String) -> Password {
        Password(value)
    }
}

impl vstd::std_specs::convert::FromSpecImpl<String> for Password {
    open spec fn obeys_from_spec() -> bool {
        true
    }

    open spec fn from_spec(value: String) -> Password {
        Password(value)
    }
}

impl WrappedValue<String> for Password {
    fn value(&self) -> &String {
        &self.0
    }
}

impl Password {
    pub fn to_string(&self) -> (r: String)
        ensures
            r@ == self.0@,
    {
        self.0.clone()
    }

    /// The password that a setting gives, else the default.
    pub fn from_setting(raw: Option<&str>) -> (r: Password)
        ensures
            match raw {
                Some(s) => r.0@ == s@,
                None => r.0@ == "admin"@,
            },
    {
        match raw {
            Some(s) => Password(s.to_owned()),
            None => Password::default(),
        }
    }
}

impl MaxPayloadSize {
    /// Mebibytes in bytes.
    #[allow(non_snake_case)]
    pub fn mega_to_bytes(MiB: usize) -> (r: usize)
        requires
            MiB * MEBIBYTE <= usize::MAX,
        ensures
            r == MiB * MEBIBYTE,
    {
        MiB * MEBIBYTE
    }

    pub fn to_string(&self) -> (r: String)
        ensures
            r@ == decimal_of(self.0 as nat),
    {
        decimal_string(self.0 as u64)
    }

    /// The size that a setting gives: its decimal value where it is one,
    /// else the default.
    pub fn from_setting(raw: Option<&str>) -> (r: MaxPayloadSize)
        ensures
            match raw {
                Some(s) => match decimal_at_most(s@, usize::MAX as nat) {
                    Some(v) => r.0 == v,
                    None => r.0 == 250 * MEBIBYTE,
                },
                None => r.0 == 250 * MEBIBYTE,
            },
    {
        match raw {
            Some(s) => match parse_decimal(s, usize::MAX as u64) {
                Some(v) => MaxPayloadSize(v as usize),
                None => MaxPayloadSize::default(),
            },
            None => MaxPayloadSize::default(),
        }
    }
}

impl Default for MaxPayloadSize {
    fn default() -> (r: MaxPayloadSize)
        ensures
            r.0 == 250 * MEBIBYTE,
    {
        MaxPayloadSize(MaxPayloadSize::mega_to_bytes(250))
    }
}

impl From<usize> for MaxPayloadSize {
    fn from(value: usize) -> MaxPayloadSize {
        MaxPayloadSize(value)
    }
}

impl vstd::std_specs::convert::FromSpecImpl<usize> for MaxPayloadSize {
    open spec fn obeys_from_spec() -> bool {
        true
    }

    open spec fn from_spec(value: usize) -> MaxPayloadSize {
        MaxPayloadSize(value)
    }
}

impl WrappedValue<usize> for MaxPayloadSize {
    fn value(&self) -> &usize {
        &self.0
    }
}

} // verus!

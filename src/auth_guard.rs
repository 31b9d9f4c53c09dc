//! The check that guards the administrative operations.

use vstd::prelude::*;

use crate::app_config::Password;

verus! {

/// The request header that carries the administrator's password.
pub const PASSWORD_HEADER: &'static str = "RM-Password";

/// Admits a request whose password header holds the configured password.
#[derive(Clone, Debug)]
pub struct AuthGuard {
    pub password: Password,
}

impl AuthGuard {
    pub fn new(password: Password) -> (r: AuthGuard)
        ensures
            r.password.0@ == password.0@,
    {
        AuthGuard { password }
    }

    /// Whether a request passes: `header` is the text of its password
    /// header, where it has one that is readable text.
    pub fn check(&self, header: Option<&str>) -> (r: bool)
        ensures
            r == (header matches Some(h) && h@ == self.password.0@),
    {
        match header {
            Some(h) => h.to_owned() == self.password.0,
            None => false,
        }
    }
}

} // verus!

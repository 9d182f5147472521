//! `Secret<T>`: a newtype for credentials whose printed form is always
//! redacted, so that a value never reaches a log or a terminal by accident.

use vstd::prelude::*;

verus! {

/// A secret value; what it prints is always `***`.
#[derive(Clone, PartialEq)]
pub struct Secret<T>(T);

impl<T> View for Secret<T> {
    type V = T;

    closed spec fn view(&self) -> T {
        self.0
    }
}

impl<T> Secret<T> {
    /// Wrap a value as a secret.
    pub fn new(value: T) -> (r: Self)
        ensures
            r@ == value,
    {
        Secret(value)
    }

    /// Expose the inner secret value. Use sparingly — only when the actual
    /// value is needed (e.g., sending credentials to a server).
    pub fn expose(&self) -> (r: &T)
        ensures
            *r == self@,
    {
        &self.0
    }

    /// The text shown wherever the secret is printed.
    pub fn redacted(&self) -> (r: &'static str)
        ensures
            r@ == "***"@,
    {
        "***"
    }
}

} // verus!

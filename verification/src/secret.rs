//! A wrapper for credential material.
//!
//! The wrapped string never leaves the type through ordinary conversions:
//! reading it takes the explicit, auditable `expose_secret` call, and the
//! only other accessor returns a fixed placeholder fit for logs.

use vstd::prelude::*;

verus! {

pub struct SecretString {
    secret: String,
}

impl View for SecretString {
    type V = Seq<char>;

    closed spec fn view(&self) -> Seq<char> {
        self.secret@
    }
}

impl SecretString {
    pub fn new(secret: String) -> (r: SecretString)
        ensures
            r@ == secret@,
    {
        SecretString { secret }
    }

    /// The one deliberate way to read the wrapped value.
    pub fn expose_secret(&self) -> (r: &str)
        ensures
            r@ == self@,
    {
        self.secret.as_str()
    }

    /// A placeholder to show in place of the value.
    pub fn redacted(&self) -> (r: String)
        ensures
            r@ == "[REDACTED]"@,
    {
        String::from_str("[REDACTED]")
    }
}

} // verus!

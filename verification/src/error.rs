//! The errors the library reports: a kind (as `std::io::ErrorKind` names
//! them) and the message shown to the user.
use vstd::prelude::*;
use crate::text::{push_str, string_from};

verus! {

/// What went wrong, in the terms of `std::io::ErrorKind`.
#[derive(Clone, Copy, Debug, PartialEq, Eq, Structural)]
pub enum ErrorKind {
    NotFound,
    InvalidInput,
    InvalidData,
}

/// An error: its kind and its message.
#[derive(Debug)]
pub struct Failure {
    pub kind: ErrorKind,
    pub message: String,
}

impl Failure {
    /// The message of this error (what `Display` shows).
    pub fn to_string(&self) -> (r: String)
        ensures
            r@ == self.message@,
    {
        self.message.clone()
    }
}

/// An error whose message is `prefix` followed by `subject`.
pub fn failure_with(kind: ErrorKind, prefix: &str, subject: &str) -> (f: Failure)
    ensures
        f.kind == kind,
        f.message@ == prefix@ + subject@,
{
    let mut message = string_from(prefix);
    push_str(&mut message, subject);
    Failure { kind, message }
}

} // verus!

//! Errors handed to the Java binding.

use vstd::prelude::*;
use vstd::string::*;

verus! {

/// An error for the Java side: a code and a message.
pub struct JavaRSocketError {
    pub code: i32,
    pub message: String,
}

impl JavaRSocketError {
    /// An error with this code and a copy of the message.
    pub fn new(code: i32, message: &str) -> (e: JavaRSocketError)
        ensures
            e.code == code,
            e.message@ == message@,
    {
        JavaRSocketError { code, message: String::from_str(message) }
    }
}

} // verus!

//! The library's error type.
use vstd::prelude::*;

verus! {

/// An error of the library's own rules, with its message.
#[derive(Debug)]
pub enum WWError {
    Generic(String),
}

impl WWError {
    /// The message of the error, as it is shown to the user.
    pub fn message(&self) -> (r: String)
        ensures
            match self {
                WWError::Generic(m) => r@ == m@,
            },
    {
        match self {
            WWError::Generic(m) => m.clone(),
        }
    }
}

} // verus!

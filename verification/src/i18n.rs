//! The error type of the editor's localization layer. The lookup and
//! formatting themselves live with the host's message bundles; the engine
//! side only carries what went wrong.

use vstd::prelude::*;

verus! {

/// A localization failure, carrying a human-readable description.
#[derive(Debug)]
pub struct I18nError {
    pub message: String,
}

impl I18nError {
    pub fn new(message: String) -> (r: I18nError)
        ensures
            r.message@ == message@,
    {
        I18nError { message }
    }

    /// The failure's description.
    pub fn message(&self) -> (r: &String)
        ensures
            r@ == self.message@,
    {
        &self.message
    }
}

} // verus!

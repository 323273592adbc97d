//! The error that ends the application.
use vstd::prelude::*;

verus! {

/// A fatal application error, carrying the text shown to the user.
#[derive(Debug, PartialEq, Eq)]
pub struct AppError(pub String);

impl AppError {
    /// The text shown for this error: its message as it is.
    pub fn message(&self) -> (res: String)
        ensures
            res@ == self.0@,
    {
        self.0.clone()
    }
}

} // verus!

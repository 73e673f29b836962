use vstd::prelude::*;

verus! {

/// Error raised when a handler layer cannot process an update.
pub struct ProcessorError {
    pub error: String,
}

/// General-purpose error carrying a human-readable message.
pub struct ErrorWithMessage {
    pub message: String,
}

impl ErrorWithMessage {
    pub fn new(message: String) -> (r: Self)
        ensures
            r.message == message,
    {
        Self { message }
    }

    /// The message text, for reporting at the boundary.
    pub fn message(&self) -> (r: &str)
        ensures
            r@ == self.message@,
    {
        self.message.as_str()
    }
}

} // verus!

use vstd::prelude::*;

verus! {

/// The single error kind of decoding: a human-readable message.
#[derive(Debug)]
pub struct Error {
    pub message: String,
}

impl Error {
    /// An error that carries `message`.
    pub fn new(message: &str) -> (r: Error)
        ensures
            r.message@ == message@,
    {
        Error { message: message.to_string() }
    }
}

} // verus!

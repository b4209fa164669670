use vstd::prelude::*;

verus! {

/// An error reported by a Docker operation, carrying its message.
#[derive(Debug, Clone, PartialEq, Eq, Hash)]
pub struct DockerError(pub String);

impl DockerError {
    /// An error with the given message.
    pub fn new(message: &str) -> (e: Self)
        ensures
            e.0@ == message@,
    {
        DockerError(String::from_str(message))
    }

    /// An error that carries `message` as it is.
    pub fn from_message(message: String) -> (e: Self)
        ensures
            e.0@ == message@,
    {
        DockerError(message)
    }

    /// The message of the error.
    pub fn to_string(&self) -> (s: String)
        ensures
            s@ == self.0@,
    {
        self.0.clone()
    }
}

} // verus!

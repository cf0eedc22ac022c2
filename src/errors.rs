use vstd::prelude::*;

verus! {

/// Failure to build a formatter.
#[derive(Clone, Copy, Debug, PartialEq, Eq, Structural)]
pub enum FormatError {
    /// A template was needed but none (or an empty one) was given.
    EmptyFormatter,
}

/// A source that could not be used, with a short description.
#[derive(Clone, Debug)]
pub struct SourceError {
    pub message: String,
}

impl SourceError {
    pub fn new(message: String) -> (r: SourceError)
        ensures
            r.message@ == message@,
    {
        SourceError { message }
    }

    pub fn message(&self) -> (r: &str)
        ensures
            r@ == self.message@,
    {
        self.message.as_str()
    }
}

/// Any failure of building an input iterator.
#[derive(Clone, Debug)]
pub enum InputError {
    Format(FormatError),
    Source(SourceError),
}

} // verus!

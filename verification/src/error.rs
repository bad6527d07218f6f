//! The closed set of failures the conversion pipeline can report.

use vstd::prelude::*;

verus! {

/// One failure of the pipeline, carrying the text of the underlying cause.
///
/// Every error is fatal: the pipeline never retries and never produces
/// partial output. `Io` covers reading the input stream and writing the
/// output file, `Decode` covers format sniffing and pixel decoding, and
/// `Encode` covers the AVIF encoding step.
#[derive(Debug)]
pub enum ConvertError {
    Io(String),
    Decode(String),
    Encode(String),
}

impl ConvertError {
    /// The text of the underlying cause.
    pub open spec fn text(self) -> Seq<char> {
        match self {
            ConvertError::Io(s) => s@,
            ConvertError::Decode(s) => s@,
            ConvertError::Encode(s) => s@,
        }
    }

    /// A human-readable description of the failure.
    pub fn message(&self) -> (r: &str)
        ensures
            r@ == self.text(),
    {
        match self {
            ConvertError::Io(s) => s.as_str(),
            ConvertError::Decode(s) => s.as_str(),
            ConvertError::Encode(s) => s.as_str(),
        }
    }

    pub fn is_io(&self) -> (r: bool)
        ensures
            r == (self is Io),
    {
        match self {
            ConvertError::Io(_) => true,
            _ => false,
        }
    }

    pub fn is_decode(&self) -> (r: bool)
        ensures
            r == (self is Decode),
    {
        match self {
            ConvertError::Decode(_) => true,
            _ => false,
        }
    }

    pub fn is_encode(&self) -> (r: bool)
        ensures
            r == (self is Encode),
    {
        match self {
            ConvertError::Encode(_) => true,
            _ => false,
        }
    }
}

} // verus!

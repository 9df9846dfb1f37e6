use vstd::prelude::*;

verus! {

/// Why a call to the provider did not yield a value.
#[derive(Debug, Clone, PartialEq)]
pub enum APIError {
    /// The request did not complete: the network or the connection failed.
    TransportError(String),
    /// The provider answered with a status outside the 2xx range; the body
    /// is what the provider sent along with it.
    StatusError { status: u16, body: String },
    /// The response body does not have the expected shape.
    ParseError(String),
    /// A file or directory could not be read, created or written.
    FileError(String),
}

/// Why a builder could not produce its parameter object.
#[derive(Debug, Clone, PartialEq)]
pub enum BuilderError {
    /// A required field was never set; carries the field's name.
    UninitializedField(&'static str),
}

} // verus!

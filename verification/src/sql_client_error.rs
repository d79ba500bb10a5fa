use vstd::prelude::*;

verus! {

/// The error type of the client library.
#[derive(Debug)]
#[non_exhaustive]
pub enum SqlClientError {
    /// A connection string part was not in the expected "Name=Value" form.
    UnsupportedFormat(String),
    /// A textual value could not be converted to the named kind of value.
    UnsupportedValue(String, String),
    /// The connection string contained an unsupported keyword.
    UnsupportedKeyword(String),
    /// A value was not supplied for the named argument.
    ArgumentNull(String),
    /// The value supplied for the named argument exceeded the given length.
    InvalidArgumentLength(String, String, usize),
    /// The value supplied for the named argument was outside its legal range.
    ArgumentOutOfRange(String, String),
}

} // verus!

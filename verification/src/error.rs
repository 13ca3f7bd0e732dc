//! The error taxonomy of the library.

use vstd::prelude::*;

verus! {

/// The kind of a failure. `Parse` is a malformed timestamp, `Json` a response
/// body that is not valid JSON or an element of the wrong shape, `Structure`
/// a payload without a `stationboard` array, `Connection`, `Io` and `Reqwest`
/// stand for transport and I/O failures raised outside the library.
#[derive(Clone, Copy, Debug, PartialEq, Eq, Structural)]
pub enum ErrorType {
    Parse,
    Connection,
    Json,
    Structure,
    Io,
    Reqwest,
}

#[derive(Clone, Copy, Debug, PartialEq, Eq, Structural)]
pub struct Error {
    pub e: ErrorType,
}

impl Error {
    pub fn new(t: ErrorType) -> (r: Self)
        ensures
            r == (Error { e: t }),
    {
        Error { e: t }
    }

    /// A human-readable description of the error.
    pub fn message(&self) -> (r: String)
        ensures
            self.e == ErrorType::Parse ==> r@ == "Parse error"@,
            self.e == ErrorType::Connection ==> r@ == "Connection error"@,
            self.e == ErrorType::Json ==> r@ == "JSON error"@,
            self.e == ErrorType::Structure ==> r@ == "Structure error"@,
            self.e == ErrorType::Io ==> r@ == "IO error"@,
            self.e == ErrorType::Reqwest ==> r@ == "Reqwest error"@,
    {
        match self.e {
            ErrorType::Parse => "Parse error".to_owned(),
            ErrorType::Connection => "Connection error".to_owned(),
            ErrorType::Json => "JSON error".to_owned(),
            ErrorType::Structure => "Structure error".to_owned(),
            ErrorType::Io => "IO error".to_owned(),
            ErrorType::Reqwest => "Reqwest error".to_owned(),
        }
    }
}

} // verus!

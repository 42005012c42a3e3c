//! The error type of the machines.

use vstd::prelude::*;

verus! {

/// An error of the operating system's I/O layer. Nothing of what it holds
/// is read by the machines: it is carried to the handler as it came.
#[verifier::external_type_specification]
#[verifier::external_body]
pub struct ExIoError(std::io::Error);

/// What can go wrong on a socket or in a machine.
#[derive(Debug)]
pub enum Error {
    /// The operating system reported an error.
    Io(std::io::Error),
    /// The reactor has no room for another machine.
    NoSlabSpace,
    /// A deadline passed before any event that the machine waited for.
    Timeout,
    /// An encrypted transport could not be established.
    Tls,
}

impl Error {
    /// The text that describes the error. For an I/O error it is the text
    /// that the error shows, which for an error of the operating system is
    /// the text that the operating system gives and is not fixed here.
    pub fn description(&self) -> (text: String)
        ensures
            self is NoSlabSpace ==> text@ == "slab space limit reached"@,
            self is Timeout ==> text@ == "Timeout"@,
            self is Tls ==> text@ == "TLS error"@,
    {
        match self {
            Error::Io(err) => io_error_text(err),
            Error::NoSlabSpace => "slab space limit reached".to_owned(),
            Error::Timeout => "Timeout".to_owned(),
            Error::Tls => "TLS error".to_owned(),
        }
    }

    /// The I/O error that caused this error, if one did.
    pub fn cause(&self) -> (cause: Option<&std::io::Error>)
        ensures
            match *self {
                Error::Io(err) => cause == Some(&err),
                _ => cause is None,
            },
    {
        match self {
            Error::Io(err) => Some(err),
            _ => None,
        }
    }
}

impl From<std::io::Error> for Error {
    fn from(err: std::io::Error) -> (error: Error) {
        Error::Io(err)
    }
}

impl vstd::std_specs::convert::FromSpecImpl<std::io::Error> for Error {
    open spec fn obeys_from_spec() -> bool {
        true
    }

    open spec fn from_spec(err: std::io::Error) -> Error {
        Error::Io(err)
    }
}

/// The text of an I/O error as `std::io::Error`'s `Display` writes it. For
/// an error of the operating system the text depends on the machine, so
/// nothing is claimed of it.
#[verifier::external_body]
fn io_error_text(err: &std::io::Error) -> (text: String) {
    err.to_string()
}

} // verus!

//! What can go wrong.

use vstd::prelude::*;

verus! {

/// `std::io::Error` as an opaque value.
#[verifier::external_type_specification]
#[verifier::external_body]
pub struct ExIoError(std::io::Error);

/// An error of the introspection component.
#[derive(Debug)]
pub enum Error {
    /// Reading, writing or setting up a socket failed.
    Io(std::io::Error),
    /// The command line holds an argument too many.
    UnexpectedArgument { got: String },
    /// Neither the command line nor the environment says where the socket is.
    IntrospectionSocketMissing,
    /// A frame arrived that is too long, or that is not of the kind that was due.
    UnexpectedSignalFrame { got: String },
    /// The bytes of a frame could not be turned into a frame, or a frame into bytes.
    SignalFrame { detail: String },
    /// A text could not be turned into an input, or an output into a text.
    Nota { detail: String },
    /// A message to an actor was not delivered or not answered.
    Actor { operation: &'static str, detail: String },
}

impl From<std::io::Error> for Error {
    fn from(error: std::io::Error) -> (res: Self) {
        Error::Io(error)
    }
}

impl vstd::std_specs::convert::FromSpecImpl<std::io::Error> for Error {
    open spec fn obeys_from_spec() -> bool {
        true
    }

    open spec fn from_spec(error: std::io::Error) -> Self {
        Error::Io(error)
    }
}

/// A failure of reading, writing or setting up a socket is kept as it is.
pub proof fn law_io_failure_is_kept(failure: std::io::Error, error: Error)
    requires
        call_ensures(<Error as From<std::io::Error>>::from, (failure,), error),
    ensures
        error matches Error::Io(kept) && kept == failure,
{
}

} // verus!

//! The one kind of failure that crosses the boundary.

use vstd::prelude::*;
use vstd::std_specs::convert::FromSpecImpl;
use vstd::string::StringExecFns;
use beacon::Error as BeaconError;
use crate::engine;

verus! {

/// A failure of the executor. It always carries the failure of the engine that caused
/// it, unchanged.
#[derive(Debug)]
pub enum Error {
    /// The engine turned the request down.
    Beacon(BeaconError),
}

impl From<BeaconError> for Error {
    fn from(error: BeaconError) -> (wrapped: Error)
        ensures
            wrapped == Error::Beacon(error),
    {
        Error::Beacon(error)
    }
}

impl FromSpecImpl<BeaconError> for Error {
    open spec fn obeys_from_spec() -> bool {
        true
    }

    open spec fn from_spec(error: BeaconError) -> Error {
        Error::Beacon(error)
    }
}

/// The answer of the executor to a request that the engine answered with `answer`.
pub open spec fn spec_lift<T>(answer: Result<T, BeaconError>) -> Result<T, Error> {
    match answer {
        Ok(value) => Ok(value),
        Err(error) => Err(Error::Beacon(error)),
    }
}

impl Error {
    /// The failure of the engine that this failure carries.
    pub open spec fn cause(&self) -> BeaconError {
        match *self {
            Error::Beacon(error) => error,
        }
    }

    /// The text of this failure: the kind, and in brackets the text of its cause.
    pub open spec fn spec_to_string(&self) -> Seq<char> {
        "Beacon("@ + engine::failure_text(self.cause()) + ")"@
    }

    /// Describes this failure for a log or a report.
    pub fn to_string(&self) -> (text: String)
        ensures
            text@ == self.spec_to_string(),
    {
        match self {
            Error::Beacon(error) => {
                let cause = engine::format_failure(error);
                let mut text = String::from_str("Beacon(");
                text.append(cause.as_str());
                text.append(")");
                text
            },
        }
    }

    /// Passes a success of the engine on as it is and wraps a failure, keeping its cause.
    pub fn lift<T>(answer: Result<T, BeaconError>) -> (lifted: Result<T, Error>)
        ensures
            lifted == spec_lift(answer),
    {
        match answer {
            Ok(value) => Ok(value),
            Err(error) => Err(Error::from(error)),
        }
    }
}

} // verus!

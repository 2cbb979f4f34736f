//! The errors that reach a caller.

use crate::comm;
use vstd::prelude::*;
use vstd::std_specs::convert::FromSpecImpl;
use vstd::string::StringExecFns;

verus! {

/// Possible errors of the application.
#[derive(Clone, Copy, Debug, PartialEq, Eq)]
pub enum AppError {
    /// An address could not be parsed.
    AddrParseError,
    /// A brew was to be started while another one runs.
    BrewOngoing,
    /// The transaction with the device failed.
    CommError(comm::Error),
    /// The configuration could not be read.
    ConfigurationError,
    /// The answer to a command was never given.
    RecvError,
    /// A header value is not valid.
    InvalidHeader,
    /// Reading or writing failed.
    IoError,
    /// JSON could not be parsed.
    ParseError,
    /// The database reported a problem.
    SqlError,
    /// The system clock is set before the epoch.
    SystemTimeError,
}

impl AppError {
    /// The error in words. An error of the transaction with the device is
    /// named after the words that say that the serial communication failed.
    pub open spec fn text(self) -> Seq<char> {
        match self {
            AppError::AddrParseError => "Address parse failed"@,
            AppError::BrewOngoing => "Brew is ongoing"@,
            AppError::CommError(error) => "Serial communication error: "@ + error.text(),
            AppError::ConfigurationError => "Could not read configuration"@,
            AppError::RecvError => "Internal error"@,
            AppError::InvalidHeader => "Invalid header"@,
            AppError::IoError => "IO error"@,
            AppError::ParseError => "JSON parse error"@,
            AppError::SqlError => "Database problem"@,
            AppError::SystemTimeError => "System time error"@,
        }
    }

    /// The error in words.
    pub fn message(&self) -> (text: String)
        ensures
            text@ == self.text(),
    {
        match self {
            AppError::AddrParseError => "Address parse failed".to_owned(),
            AppError::BrewOngoing => "Brew is ongoing".to_owned(),
            AppError::CommError(error) => {
                let detail = error.message();
                "Serial communication error: ".to_owned().concat(detail.as_str())
            },
            AppError::ConfigurationError => "Could not read configuration".to_owned(),
            AppError::RecvError => "Internal error".to_owned(),
            AppError::InvalidHeader => "Invalid header".to_owned(),
            AppError::IoError => "IO error".to_owned(),
            AppError::ParseError => "JSON parse error".to_owned(),
            AppError::SqlError => "Database problem".to_owned(),
            AppError::SystemTimeError => "System time error".to_owned(),
        }
    }
}

impl From<comm::Error> for AppError {
    fn from(error: comm::Error) -> (r: AppError) {
        AppError::CommError(error)
    }
}

impl FromSpecImpl<comm::Error> for AppError {
    open spec fn obeys_from_spec() -> bool {
        true
    }

    open spec fn from_spec(error: comm::Error) -> AppError {
        AppError::CommError(error)
    }
}

} // verus!

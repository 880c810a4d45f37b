use vstd::prelude::*;
use vstd::string::StringExecFns;

verus! {

/// Which part of logger setup failed.
#[derive(Debug, Clone, Copy, PartialEq, Eq, Structural)]
pub enum LoggingErrorKind {
    SetLoggerError,
    ThreadError,
}

/// The error value carried by `Message::Error` and `Message::ErrorFatal`.
///
/// Recoverable errors are surfaced to the model through a normal update
/// call; fatal ones abort the run.
#[derive(Debug, Clone)]
pub enum Error {
    Error(&'static str),
    OwnedError(String),
    TerminalError(String),
    IOError(String),
    JSONError(String),
    LoggingError(LoggingErrorKind, String),
}

impl Error {
    /// The full text of the error, variant prefix included.
    pub open spec fn text(self) -> Seq<char> {
        match self {
            Error::Error(s) => s@,
            Error::OwnedError(s) => s@,
            Error::TerminalError(s) => "Terminal error: "@ + s@,
            Error::IOError(s) => "IO error: "@ + s@,
            Error::JSONError(s) => "Invalid response from command: "@ + s@,
            Error::LoggingError(k, s) => (match k {
                LoggingErrorKind::SetLoggerError => "Logging Error (SetLoggerError): "@,
                LoggingErrorKind::ThreadError => "Logging Error (ThreadError): "@,
            }) + s@,
        }
    }

    /// Render the error as a plain string, prefix included.
    pub fn message(&self) -> (r: String)
        ensures
            r@ == self.text(),
    {
        match self {
            Error::Error(s) => String::from_str(s),
            Error::OwnedError(s) => s.clone(),
            Error::TerminalError(s) => String::from_str("Terminal error: ").concat(s.as_str()),
            Error::IOError(s) => String::from_str("IO error: ").concat(s.as_str()),
            Error::JSONError(s) => String::from_str("Invalid response from command: ").concat(
                s.as_str(),
            ),
            Error::LoggingError(k, s) => match k {
                LoggingErrorKind::SetLoggerError => String::from_str(
                    "Logging Error (SetLoggerError): ",
                ).concat(s.as_str()),
                LoggingErrorKind::ThreadError => String::from_str(
                    "Logging Error (ThreadError): ",
                ).concat(s.as_str()),
            },
        }
    }

    /// A copy that is provably the same value.
    pub fn duplicate(&self) -> (r: Error)
        ensures
            r == *self,
    {
        match self {
            Error::Error(s) => Error::Error(s),
            Error::OwnedError(s) => Error::OwnedError(s.clone()),
            Error::TerminalError(s) => Error::TerminalError(s.clone()),
            Error::IOError(s) => Error::IOError(s.clone()),
            Error::JSONError(s) => Error::JSONError(s.clone()),
            Error::LoggingError(k, s) => Error::LoggingError(*k, s.clone()),
        }
    }
}

impl Default for Error {
    fn default() -> (r: Self)
        ensures
            r matches Error::Error(s) && s@ == "an error occurred"@,
    {
        Error::Error("an error occurred")
    }
}

impl From<String> for Error {
    fn from(s: String) -> (r: Self) {
        Error::OwnedError(s)
    }
}

impl vstd::std_specs::convert::FromSpecImpl<String> for Error {
    open spec fn obeys_from_spec() -> bool {
        true
    }

    open spec fn from_spec(s: String) -> Self {
        Error::OwnedError(s)
    }
}

impl From<&'static str> for Error {
    fn from(s: &'static str) -> (r: Self) {
        Error::Error(s)
    }
}

impl vstd::std_specs::convert::FromSpecImpl<&'static str> for Error {
    open spec fn obeys_from_spec() -> bool {
        true
    }

    open spec fn from_spec(s: &'static str) -> Self {
        Error::Error(s)
    }
}

/// The result type used throughout the runtime.
pub type Result<T> = core::result::Result<T, Error>;

} // verus!

use vstd::prelude::*;
use vstd::string::StringExecFns;

use crate::logger::config::LoggerConfig;

verus! {

/// What can go wrong when the logger is set up.
#[derive(Debug, Clone)]
pub enum LoggerError {
    InvalidConfiguration(String),
    InitializationFailed(String),
    IoError(String),
    TracingError(String),
    Other(String),
}

impl LoggerError {
    pub open spec fn text(self) -> Seq<char> {
        match self {
            LoggerError::InvalidConfiguration(s) => "Invalid logger configuration: "@ + s@,
            LoggerError::InitializationFailed(s) => "Logger initialization failed: "@ + s@,
            LoggerError::IoError(_) => "Logger I/O error"@,
            LoggerError::TracingError(_) => "Tracing subscriber error"@,
            LoggerError::Other(s) => "Logger error: "@ + s@,
        }
    }

    /// The message of this error.
    pub fn to_string(&self) -> (r: String)
        ensures
            r@ == self.text(),
    {
        match self {
            LoggerError::InvalidConfiguration(s) => {
                let mut t = "Invalid logger configuration: ".to_owned();
                t.append(s.as_str());
                t
            },
            LoggerError::InitializationFailed(s) => {
                let mut t = "Logger initialization failed: ".to_owned();
                t.append(s.as_str());
                t
            },
            LoggerError::IoError(_) => "Logger I/O error".to_owned(),
            LoggerError::TracingError(_) => "Tracing subscriber error".to_owned(),
            LoggerError::Other(s) => {
                let mut t = "Logger error: ".to_owned();
                t.append(s.as_str());
                t
            },
        }
    }
}

/// The detail given when no output is enabled.
pub const NO_OUTPUT: &'static str = "Must enable at least one of file or console logging";

/// Accepts a configuration that sends lines somewhere: to the console, a file, or both.
pub fn validate_config(config: &LoggerConfig) -> (r: Result<(), LoggerError>)
    ensures
        r is Ok <==> (config.enable_console || config.enable_file),
        r matches Err(e) ==> e matches LoggerError::InvalidConfiguration(s) && s@ == NO_OUTPUT@,
{
    if !config.enable_console() && !config.enable_file() {
        return Err(LoggerError::InvalidConfiguration(NO_OUTPUT.to_owned()));
    }
    Ok(())
}

} // verus!

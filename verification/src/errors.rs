//! Error taxonomy of the client: every fatal condition a command can
//! hit, each carried with the text that is surfaced to the user.

use vstd::prelude::*;
use vstd::string::StringExecFns;

verus! {

/// The conditions that abort a command.
#[derive(Debug)]
pub enum CliError {
    /// A requested contract name is absent from the registry.
    NotFoundError,
    /// The daemon's output is not valid JSON or does not match the
    /// expected shape; carries the failure reason.
    ParseError(String),
    /// A transaction response holds no messages where one was expected.
    EmptyMessagesError,
    /// A transaction response holds no logs where one was expected.
    EmptyLogsError,
    /// The external daemon did not succeed; carries its error text.
    CommandError(String),
}

impl CliError {
    /// A user-readable description of the error.
    pub fn describe(&self) -> (r: String)
        ensures
            r@ == match *self {
                CliError::NotFoundError => "contract name not found in registry"@,
                CliError::ParseError(m) => "failed to parse response: "@ + m@,
                CliError::EmptyMessagesError => "transaction response contains no messages"@,
                CliError::EmptyLogsError => "transaction response contains no logs"@,
                CliError::CommandError(m) => "command execution failed: "@ + m@,
            },
    {
        match self {
            CliError::NotFoundError => String::from_str("contract name not found in registry"),
            CliError::ParseError(m) => {
                let mut r = String::from_str("failed to parse response: ");
                r.append(m.as_str());
                r
            },
            CliError::EmptyMessagesError => String::from_str(
                "transaction response contains no messages",
            ),
            CliError::EmptyLogsError => String::from_str("transaction response contains no logs"),
            CliError::CommandError(m) => {
                let mut r = String::from_str("command execution failed: ");
                r.append(m.as_str());
                r
            },
        }
    }
}

} // verus!

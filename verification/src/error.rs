//! What can go wrong in a run: structurally invalid identifiers,
//! configuration problems, and result-store failures, together with the
//! message text that the `ER` report line carries for each of them.

use vstd::prelude::*;

verus! {

/// A structurally invalid unit identifier.
#[derive(Debug, Clone, Copy, PartialEq, Eq, Structural)]
pub enum CodecError {
    /// The seven-character sequence field at offset six is absent, too
    /// short, or not all decimal digits.
    MalformedIdentifier,
    /// A derived sibling's sequence number would not fit in seven digits.
    SequenceOverflow,
}

/// A failure while talking to the historical result store.
#[derive(Debug, Clone, Copy, PartialEq, Eq, Structural)]
pub enum StoreError {
    /// Connecting and authenticating failed on every allowed attempt.
    Connection,
    /// A query failed at the transport or protocol level.
    Query,
    /// A counting query returned no row where one was owed.
    NoResult,
    /// The first column of the returned row was not an integer.
    UnexpectedShape,
}

/// A problem with the loaded configuration.
#[derive(Debug, Clone, Copy, PartialEq, Eq, Structural)]
pub enum ConfigError {
    /// The configuration file is absent or cannot be read.
    Unreadable,
    /// The configuration has no section for the result-store settings.
    MissingSection,
    /// The mandatory SERVER field is absent or empty.
    MissingServer,
    /// The mandatory USERNAME field is absent or empty.
    MissingUsername,
    /// The mandatory PASSWORD field is absent or empty.
    MissingPassword,
    /// The optional PORT field is present but not a valid port number.
    InvalidPort,
}

/// Any fatal failure of an invocation; each classification of `Error`
/// carries one of these.
#[derive(Debug, Clone, Copy, PartialEq, Eq, Structural)]
pub enum FlowError {
    /// The required unit-identifier argument was not supplied.
    MissingArgument,
    Codec(CodecError),
    Config(ConfigError),
    Store(StoreError),
}

/// The message text the `ER` line reports for each failure.
pub open spec fn spec_message(e: FlowError) -> Seq<char> {
    match e {
        FlowError::MissingArgument => "no unit identifier argument"@,
        FlowError::Codec(CodecError::MalformedIdentifier) => "malformed identifier: the sequence field is not seven digits"@,
        FlowError::Codec(CodecError::SequenceOverflow) => "sequence number overflow while deriving panel siblings"@,
        FlowError::Config(ConfigError::Unreadable) => "could not read the configuration file"@,
        FlowError::Config(ConfigError::MissingSection) => "configuration has no [JVSERVER] section"@,
        FlowError::Config(ConfigError::MissingServer) => "missing SERVER in configuration"@,
        FlowError::Config(ConfigError::MissingUsername) => "missing USERNAME in configuration"@,
        FlowError::Config(ConfigError::MissingPassword) => "missing PASSWORD in configuration"@,
        FlowError::Config(ConfigError::InvalidPort) => "PORT in configuration is not a valid port number"@,
        FlowError::Store(StoreError::Connection) => "connection to the result store failed"@,
        FlowError::Store(StoreError::Query) => "result store query failed"@,
        FlowError::Store(StoreError::NoResult) => "count query returned no row"@,
        FlowError::Store(StoreError::UnexpectedShape) => "count query returned a non-integer value"@,
    }
}

impl FlowError {
    /// The message text of this failure.
    pub fn message(&self) -> (s: String)
        ensures
            s@ == spec_message(*self),
    {
        match self {
            FlowError::MissingArgument => String::from_str("no unit identifier argument"),
            FlowError::Codec(CodecError::MalformedIdentifier) => String::from_str(
                "malformed identifier: the sequence field is not seven digits",
            ),
            FlowError::Codec(CodecError::SequenceOverflow) => String::from_str(
                "sequence number overflow while deriving panel siblings",
            ),
            FlowError::Config(ConfigError::Unreadable) => String::from_str(
                "could not read the configuration file",
            ),
            FlowError::Config(ConfigError::MissingSection) => String::from_str(
                "configuration has no [JVSERVER] section",
            ),
            FlowError::Config(ConfigError::MissingServer) => String::from_str(
                "missing SERVER in configuration",
            ),
            FlowError::Config(ConfigError::MissingUsername) => String::from_str(
                "missing USERNAME in configuration",
            ),
            FlowError::Config(ConfigError::MissingPassword) => String::from_str(
                "missing PASSWORD in configuration",
            ),
            FlowError::Config(ConfigError::InvalidPort) => String::from_str(
                "PORT in configuration is not a valid port number",
            ),
            FlowError::Store(StoreError::Connection) => String::from_str(
                "connection to the result store failed",
            ),
            FlowError::Store(StoreError::Query) => String::from_str("result store query failed"),
            FlowError::Store(StoreError::NoResult) => String::from_str(
                "count query returned no row",
            ),
            FlowError::Store(StoreError::UnexpectedShape) => String::from_str(
                "count query returned a non-integer value",
            ),
        }
    }
}

} // verus!

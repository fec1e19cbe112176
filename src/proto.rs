//! Failures raised by the protocol layer while reading and parsing messages.

use vstd::prelude::*;

verus! {

/// Why a mode string could not be parsed.
#[derive(Debug, Clone, PartialEq, Eq)]
pub enum ModeParseError {
    /// A mode modifier was neither `+` nor `-`.
    InvalidModeModifier {
        /// The modifier that was found.
        modifier: char,
    },
    /// A mode string did not start with a modifier.
    MissingModeModifier,
}

/// Why a protocol message could not be parsed.
#[derive(Debug, Clone, PartialEq, Eq)]
pub enum MessageParseError {
    /// The message was empty.
    EmptyMessage,
    /// The command was not valid.
    InvalidCommand,
    /// A mode string in the message could not be parsed.
    InvalidModeString {
        /// The mode string that failed to parse.
        string: String,
        /// Why it failed.
        cause: ModeParseError,
    },
    /// A subcommand was not valid for its command.
    InvalidSubcommand {
        /// The command.
        cmd: &'static str,
        /// The subcommand that was not recognized.
        sub: String,
    },
}

/// A failure of the protocol layer: either of its byte stream, or of parsing.
#[derive(Debug)]
pub enum ProtocolError {
    /// The underlying byte stream failed.
    Io(std::io::Error),
    /// A message failed to parse.
    InvalidMessage {
        /// The text that failed to parse.
        string: String,
        /// Why it failed.
        cause: MessageParseError,
    },
}

} // verus!

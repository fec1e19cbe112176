//! The crate-wide error type and the configuration failures nested in it.

use vstd::prelude::*;
use vstd::string::*;

use futures_channel::mpsc::{SendError, TrySendError};
use futures_channel::oneshot::Canceled;
use std::io::Error as IoError;
use std::sync::mpsc::RecvError;

use crate::proto::{MessageParseError, ProtocolError};

verus! {

/// The main crate-wide error type.
#[derive(Debug)]
pub enum Error {
    /// An internal I/O error.
    Io(IoError),
    /// An internal TLS error.
    Tls(native_tls::Error),
    /// An internal synchronous channel closed.
    SyncChannelClosed(RecvError),
    /// An internal asynchronous channel closed.
    AsyncChannelClosed(SendError),
    /// An internal oneshot channel closed.
    OneShotCanceled(Canceled),
    /// Error for invalid configurations.
    InvalidConfig {
        /// The path to the configuration, or "<none>" if none specified.
        path: String,
        /// The detailed configuration error.
        cause: ConfigError,
    },
    /// Error for invalid messages.
    InvalidMessage {
        /// The string that failed to parse.
        string: String,
        /// The detailed message parsing error.
        cause: MessageParseError,
    },
    /// Mutex for a logged transport was poisoned making the log inaccessible.
    PoisonedLog,
    /// Ping timed out due to no response.
    PingTimeout,
    /// Failed to lookup an unknown codec.
    UnknownCodec {
        /// The attempted codec.
        codec: String,
    },
    /// Failed to encode or decode something with the given codec.
    CodecFailed {
        /// The canonical codec name.
        codec: &'static str,
        /// The data that failed to encode or decode.
        data: String,
    },
    /// All specified nicknames were in use or unusable.
    NoUsableNick,
    /// Stream has already been configured.
    StreamAlreadyConfigured,
}

/// Errors that occur with configurations.
#[derive(Debug)]
pub enum ConfigError {
    /// Failed to parse as TOML.
    InvalidToml(TomlError),
    /// Failed to parse as JSON.
    InvalidJson(serde_json::Error),
    /// Failed to parse as YAML.
    InvalidYaml(serde_yaml::Error),
    /// The format was recognized, but support for it is not available.
    ConfigFormatDisabled {
        /// The disabled file format.
        format: &'static str,
    },
    /// Could not identify the given file format.
    UnknownConfigFormat {
        /// The unknown file extension.
        format: String,
    },
    /// File was missing an extension to identify file format.
    MissingExtension,
    /// Configuration does not specify a nickname.
    NicknameNotSpecified,
    /// Configuration does not specify a server.
    ServerNotSpecified,
}

/// A wrapper that combines toml's serialization and deserialization errors.
#[derive(Debug)]
pub enum TomlError {
    /// A TOML deserialization error.
    Read(toml::de::Error),
    /// A TOML serialization error.
    Write(toml::ser::Error),
}

/// The sentinel recorded as the path of a configuration that was given none.
pub const NO_PATH: &'static str = "<none>";

impl TomlError {
    /// The fixed text that describes this error.
    pub open spec fn spec_message(&self) -> Seq<char> {
        match self {
            TomlError::Read(_) => "deserialization failed"@,
            TomlError::Write(_) => "serialization failed"@,
        }
    }

    /// Renders this error as a human-readable message.
    pub fn message(&self) -> (r: String)
        ensures
            r@ == self.spec_message(),
    {
        match self {
            TomlError::Read(_) => String::from_str("deserialization failed"),
            TomlError::Write(_) => String::from_str("serialization failed"),
        }
    }
}

impl ConfigError {
    /// The text that describes this error, with its fields filled in.
    pub open spec fn spec_message(&self) -> Seq<char> {
        match self {
            ConfigError::InvalidToml(_) => "invalid toml"@,
            ConfigError::InvalidJson(_) => "invalid json"@,
            ConfigError::InvalidYaml(_) => "invalid yaml"@,
            ConfigError::ConfigFormatDisabled { format } => "config format disabled: "@ + format@,
            ConfigError::UnknownConfigFormat { format } => "config format unknown: "@ + format@,
            ConfigError::MissingExtension => "missing format extension"@,
            ConfigError::NicknameNotSpecified => "nickname not specified"@,
            ConfigError::ServerNotSpecified => "server not specified"@,
        }
    }

    /// Renders this error as a human-readable message.
    pub fn message(&self) -> (r: String)
        ensures
            r@ == self.spec_message(),
    {
        match self {
            ConfigError::InvalidToml(_) => String::from_str("invalid toml"),
            ConfigError::InvalidJson(_) => String::from_str("invalid json"),
            ConfigError::InvalidYaml(_) => String::from_str("invalid yaml"),
            ConfigError::ConfigFormatDisabled { format } => {
                let mut s = String::from_str("config format disabled: ");
                s.append(format);
                s
            },
            ConfigError::UnknownConfigFormat { format } => {
                let mut s = String::from_str("config format unknown: ");
                s.append(format.as_str());
                s
            },
            ConfigError::MissingExtension => String::from_str("missing format extension"),
            ConfigError::NicknameNotSpecified => String::from_str("nickname not specified"),
            ConfigError::ServerNotSpecified => String::from_str("server not specified"),
        }
    }
}

impl Error {
    /// The text that describes this error, with its fields filled in.
    pub open spec fn spec_message(&self) -> Seq<char> {
        match self {
            Error::Io(_) => "an io error occurred"@,
            Error::Tls(_) => "a TLS error occurred"@,
            Error::SyncChannelClosed(_) => "a sync channel closed"@,
            Error::AsyncChannelClosed(_) => "an async channel closed"@,
            Error::OneShotCanceled(_) => "a oneshot channel closed"@,
            Error::InvalidConfig { path, .. } => "invalid config: "@ + path@,
            Error::InvalidMessage { string, .. } => "invalid message: "@ + string@,
            Error::PoisonedLog => "mutex for a logged transport was poisoned"@,
            Error::PingTimeout => "connection reset: no ping response"@,
            Error::UnknownCodec { codec } => "unknown codec: "@ + codec@,
            Error::CodecFailed { codec, data } => "codec "@ + codec@ + " failed: "@ + data@,
            Error::NoUsableNick => "none of the specified nicknames were usable"@,
            Error::StreamAlreadyConfigured => "stream has already been configured"@,
        }
    }

    /// Renders this error as a human-readable message.
    pub fn message(&self) -> (r: String)
        ensures
            r@ == self.spec_message(),
    {
        match self {
            Error::Io(_) => String::from_str("an io error occurred"),
            Error::Tls(_) => String::from_str("a TLS error occurred"),
            Error::SyncChannelClosed(_) => String::from_str("a sync channel closed"),
            Error::AsyncChannelClosed(_) => String::from_str("an async channel closed"),
            Error::OneShotCanceled(_) => String::from_str("a oneshot channel closed"),
            Error::InvalidConfig { path, .. } => {
                let mut s = String::from_str("invalid config: ");
                s.append(path.as_str());
                s
            },
            Error::InvalidMessage { string, .. } => {
                let mut s = String::from_str("invalid message: ");
                s.append(string.as_str());
                s
            },
            Error::PoisonedLog => String::from_str("mutex for a logged transport was poisoned"),
            Error::PingTimeout => String::from_str("connection reset: no ping response"),
            Error::UnknownCodec { codec } => {
                let mut s = String::from_str("unknown codec: ");
                s.append(codec.as_str());
                s
            },
            Error::CodecFailed { codec, data } => {
                let mut s = String::from_str("codec ");
                s.append(codec);
                s.append(" failed: ");
                s.append(data.as_str());
                s
            },
            Error::NoUsableNick => String::from_str("none of the specified nicknames were usable"),
            Error::StreamAlreadyConfigured => String::from_str("stream has already been configured"),
        }
    }
}

impl Error {
    /// The configuration failure that this error wraps, if it wraps one.
    pub fn config_cause(&self) -> (r: Option<&ConfigError>)
        ensures
            match self {
                Error::InvalidConfig { cause, .. } => r == Some(cause),
                _ => r is None,
            },
    {
        match self {
            Error::InvalidConfig { cause, .. } => Some(cause),
            _ => None,
        }
    }

    /// The message-parse failure that this error wraps, if it wraps one.
    pub fn message_cause(&self) -> (r: Option<&MessageParseError>)
        ensures
            match self {
                Error::InvalidMessage { cause, .. } => r == Some(cause),
                _ => r is None,
            },
    {
        match self {
            Error::InvalidMessage { cause, .. } => Some(cause),
            _ => None,
        }
    }
}

impl ConfigError {
    /// The TOML failure that this error wraps, if it wraps one.
    pub fn toml_cause(&self) -> (r: Option<&TomlError>)
        ensures
            match self {
                ConfigError::InvalidToml(cause) => r == Some(cause),
                _ => r is None,
            },
    {
        match self {
            ConfigError::InvalidToml(cause) => Some(cause),
            _ => None,
        }
    }
}

/// The error that a protocol-layer failure becomes: an I/O failure is passed
/// through as is; a parse failure keeps both its text and its cause.
pub open spec fn protocol_error_to_error(e: ProtocolError) -> Error {
    match e {
        ProtocolError::Io(io) => Error::Io(io),
        ProtocolError::InvalidMessage { string, cause } => Error::InvalidMessage { string, cause },
    }
}

impl From<ProtocolError> for Error {
    fn from(e: ProtocolError) -> (r: Error)
        ensures
            r == protocol_error_to_error(e),
    {
        match e {
            ProtocolError::Io(e) => Error::Io(e),
            ProtocolError::InvalidMessage { string, cause } => {
                Error::InvalidMessage { string, cause }
            },
        }
    }
}

impl vstd::std_specs::convert::FromSpecImpl<ProtocolError> for Error {
    open spec fn obeys_from_spec() -> bool {
        true
    }

    open spec fn from_spec(v: ProtocolError) -> Error {
        protocol_error_to_error(v)
    }
}

impl From<IoError> for Error {
    fn from(e: IoError) -> (r: Error)
        ensures
            r == Error::Io(e),
    {
        Error::Io(e)
    }
}

impl vstd::std_specs::convert::FromSpecImpl<IoError> for Error {
    open spec fn obeys_from_spec() -> bool {
        true
    }

    open spec fn from_spec(v: IoError) -> Error {
        Error::Io(v)
    }
}

impl From<native_tls::Error> for Error {
    fn from(e: native_tls::Error) -> (r: Error)
        ensures
            r == Error::Tls(e),
    {
        Error::Tls(e)
    }
}

impl vstd::std_specs::convert::FromSpecImpl<native_tls::Error> for Error {
    open spec fn obeys_from_spec() -> bool {
        true
    }

    open spec fn from_spec(v: native_tls::Error) -> Error {
        Error::Tls(v)
    }
}

impl From<RecvError> for Error {
    fn from(e: RecvError) -> (r: Error)
        ensures
            r == Error::SyncChannelClosed(e),
    {
        Error::SyncChannelClosed(e)
    }
}

impl vstd::std_specs::convert::FromSpecImpl<RecvError> for Error {
    open spec fn obeys_from_spec() -> bool {
        true
    }

    open spec fn from_spec(v: RecvError) -> Error {
        Error::SyncChannelClosed(v)
    }
}

impl From<SendError> for Error {
    fn from(e: SendError) -> (r: Error)
        ensures
            r == Error::AsyncChannelClosed(e),
    {
        Error::AsyncChannelClosed(e)
    }
}

impl vstd::std_specs::convert::FromSpecImpl<SendError> for Error {
    open spec fn obeys_from_spec() -> bool {
        true
    }

    open spec fn from_spec(v: SendError) -> Error {
        Error::AsyncChannelClosed(v)
    }
}

impl<T> From<TrySendError<T>> for Error {
    fn from(e: TrySendError<T>) -> (r: Error)
        ensures
            r is AsyncChannelClosed,
    {
        Error::AsyncChannelClosed(crate::foreign::into_send_error(e))
    }
}

impl<T> vstd::std_specs::convert::FromSpecImpl<TrySendError<T>> for Error {
    /// The send error that comes out is not a spec-level function of the
    /// opaque `TrySendError`, so only the variant is stated, by `from` itself.
    open spec fn obeys_from_spec() -> bool {
        false
    }

    open spec fn from_spec(v: TrySendError<T>) -> Error {
        vstd::pervasive::arbitrary()
    }
}

impl From<Canceled> for Error {
    fn from(e: Canceled) -> (r: Error)
        ensures
            r == Error::OneShotCanceled(e),
    {
        Error::OneShotCanceled(e)
    }
}

impl vstd::std_specs::convert::FromSpecImpl<Canceled> for Error {
    open spec fn obeys_from_spec() -> bool {
        true
    }

    open spec fn from_spec(v: Canceled) -> Error {
        Error::OneShotCanceled(v)
    }
}

} // verus!

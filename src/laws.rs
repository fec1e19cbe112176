//! Properties that relate the conversions and the configuration loader to the
//! taxonomy, stated over the specifications of those functions.

use vstd::prelude::*;
use vstd::std_specs::convert::FromSpec;

use futures_channel::mpsc::SendError;
use futures_channel::oneshot::Canceled;
use std::io::Error as IoError;
use std::sync::mpsc::RecvError;

use crate::config::{
    format_for_marker, identify_matches, load_matches, spec_extension, ConfigFormat,
    FormatSupport,
};
use crate::error::{protocol_error_to_error, ConfigError, Error};
use crate::proto::{MessageParseError, ProtocolError};

verus! {

/// Every direct conversion into `Error` wraps the original failure itself,
/// unchanged, in the variant of its kind.
pub proof fn lemma_conversions_keep_cause(
    io: IoError,
    tls: native_tls::Error,
    recv: RecvError,
    send: SendError,
    canceled: Canceled,
)
    ensures
        <Error as FromSpec<IoError>>::obeys_from_spec(),
        <Error as FromSpec<IoError>>::from_spec(io) == Error::Io(io),
        <Error as FromSpec<native_tls::Error>>::obeys_from_spec(),
        <Error as FromSpec<native_tls::Error>>::from_spec(tls) == Error::Tls(tls),
        <Error as FromSpec<RecvError>>::obeys_from_spec(),
        <Error as FromSpec<RecvError>>::from_spec(recv) == Error::SyncChannelClosed(recv),
        <Error as FromSpec<SendError>>::obeys_from_spec(),
        <Error as FromSpec<SendError>>::from_spec(send) == Error::AsyncChannelClosed(send),
        <Error as FromSpec<Canceled>>::obeys_from_spec(),
        <Error as FromSpec<Canceled>>::from_spec(canceled) == Error::OneShotCanceled(canceled),
{
}

/// A protocol failure caused by the byte stream becomes `Io`, carrying the
/// very same I/O failure.
pub proof fn lemma_protocol_io_passes_through(io: IoError)
    ensures
        <Error as FromSpec<ProtocolError>>::obeys_from_spec(),
        <Error as FromSpec<ProtocolError>>::from_spec(ProtocolError::Io(io)) == Error::Io(io),
        protocol_error_to_error(ProtocolError::Io(io)) == Error::Io(io),
{
}

/// A protocol parse failure becomes `InvalidMessage` with the unparsed text
/// and the parse cause both unchanged.
pub proof fn lemma_protocol_parse_failure_kept(string: String, cause: MessageParseError)
    ensures
        <Error as FromSpec<ProtocolError>>::obeys_from_spec(),
        <Error as FromSpec<ProtocolError>>::from_spec(
            ProtocolError::InvalidMessage { string, cause },
        ) == (Error::InvalidMessage { string, cause }),
{
}

/// Loading a document whose marker names a format without an available
/// parser gives `ConfigFormatDisabled` with that format's name, whatever the
/// text: the text is never parsed.
pub proof fn lemma_disabled_format_never_parsed(
    p: Seq<char>,
    s: FormatSupport,
    text: Seq<char>,
    r: Result<crate::config::Document, Error>,
    m: Seq<char>,
    f: ConfigFormat,
)
    requires
        load_matches(p, s, text, r),
        spec_extension(p) == Some(m),
        format_for_marker(m) == Some(f),
        !s.has(f),
    ensures
        r matches Err(Error::InvalidConfig { path, cause: ConfigError::ConfigFormatDisabled { format } })
            && path@ == p && format == f.name(),
{
}

/// A path without a marker gives `MissingExtension` and one whose marker names
/// no format gives `UnknownConfigFormat`; neither is given in the other case.
pub proof fn lemma_missing_and_unknown_distinct(
    p: Seq<char>,
    s: FormatSupport,
    r: Result<ConfigFormat, ConfigError>,
)
    requires
        identify_matches(p, s, r),
    ensures
        (r matches Err(ConfigError::MissingExtension)) <==> spec_extension(p) is None,
        (r matches Err(ConfigError::UnknownConfigFormat { format })) <==> (spec_extension(p) matches Some(m)
            && format_for_marker(m) is None),
        r matches Err(ConfigError::UnknownConfigFormat { format }) ==> spec_extension(p) == Some(format@),
{
}

} // verus!

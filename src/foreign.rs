//! Types of std and of other crates that the taxonomy carries, each opaque
//! here, and the calls into those crates that the library makes.

use vstd::prelude::*;

use native_tls::Error as TlsError;
use serde_json::Error as JsonError;
use serde_yaml::Error as YamlError;
use toml::de::Error as TomlReadError;
use toml::ser::Error as TomlWriteError;

verus! {

#[verifier::external_type_specification]
#[verifier::external_body]
pub struct ExIoError(std::io::Error);

#[verifier::external_type_specification]
#[verifier::external_body]
pub struct ExRecvError(std::sync::mpsc::RecvError);

#[verifier::external_type_specification]
#[verifier::external_body]
pub struct ExTlsError(TlsError);

#[verifier::external_type_specification]
#[verifier::external_body]
pub struct ExSendError(futures_channel::mpsc::SendError);

#[verifier::external_type_specification]
#[verifier::external_body]
#[verifier::reject_recursive_types(T)]
pub struct ExTrySendError<T>(futures_channel::mpsc::TrySendError<T>);

#[verifier::external_type_specification]
#[verifier::external_body]
pub struct ExCanceled(futures_channel::oneshot::Canceled);

#[verifier::external_type_specification]
#[verifier::external_body]
pub struct ExJsonError(JsonError);

#[verifier::external_type_specification]
#[verifier::external_body]
pub struct ExYamlError(YamlError);

#[verifier::external_type_specification]
#[verifier::external_body]
pub struct ExTomlReadError(TomlReadError);

#[verifier::external_type_specification]
#[verifier::external_body]
pub struct ExTomlWriteError(TomlWriteError);

#[verifier::external_type_specification]
#[verifier::external_body]
pub struct ExJsonValue(serde_json::Value);

#[verifier::external_type_specification]
#[verifier::external_body]
pub struct ExTomlValue(toml::Value);

#[verifier::external_type_specification]
#[verifier::external_body]
pub struct ExYamlValue(serde_yaml::Value);

/// Whether serde_json accepts `text` as a JSON document.
pub uninterp spec fn json_accepts(text: Seq<char>) -> bool;

/// Whether toml accepts `text` as a TOML document.
pub uninterp spec fn toml_accepts(text: Seq<char>) -> bool;

/// Whether serde_yaml accepts `text` as a YAML document.
pub uninterp spec fn yaml_accepts(text: Seq<char>) -> bool;

/// Relies on `serde_json::from_str` into a `serde_json::Value`: whether it
/// succeeds depends on the text alone.
#[verifier::external_body]
pub(crate) fn parse_json(text: &str) -> (r: Result<serde_json::Value, JsonError>)
    ensures
        r is Ok <==> json_accepts(text@),
{
    serde_json::from_str(text)
}

/// The most characters that open a nesting level that a TOML text handed to
/// the parser may hold.
pub const TOML_NESTING_LIMIT: usize = 128;

/// Whether `c` can open a nesting level in TOML: an array, an inline table, or
/// one more segment of a dotted key or table header.
pub open spec fn is_toml_nesting_mark(c: char) -> bool {
    c == '[' || c == '{' || c == '.'
}

/// How many characters of `s` can open a nesting level in TOML; the depth to
/// which the parser recurses is never more than this.
pub open spec fn toml_nesting_marks(s: Seq<char>) -> nat
    decreases s.len(),
{
    if s.len() == 0 {
        0
    } else {
        toml_nesting_marks(s.drop_last()) + if is_toml_nesting_mark(s.last()) {
            1nat
        } else {
            0nat
        }
    }
}

/// Whether `text` is shallow enough to be handed to the TOML parser, which
/// recurses once per nesting level with no limit of its own.
pub fn toml_nesting_within_limit(text: &str) -> (r: bool)
    ensures
        r == (toml_nesting_marks(text@) <= TOML_NESTING_LIMIT),
{
    let n = text.unicode_len();
    let mut i: usize = 0;
    let mut count: usize = 0;
    while i < n
        invariant
            n == text@.len(),
            i <= n,
            count == toml_nesting_marks(text@.subrange(0, i as int)),
            count <= i,
        decreases n - i,
    {
        let c = text.get_char(i);
        proof {
            assert(text@.subrange(0, i + 1).drop_last() =~= text@.subrange(0, i as int));
        }
        if c == '[' || c == '{' || c == '.' {
            count = count + 1;
        }
        i = i + 1;
    }
    proof {
        assert(text@.subrange(0, n as int) =~= text@);
    }
    count <= TOML_NESTING_LIMIT
}

/// Relies on `toml::from_str` into a `toml::Value`: whether it succeeds
/// depends on the text alone. The parser recurses once per nesting level with
/// no limit, so deep text would overflow the stack: it is left out.
#[verifier::external_body]
pub(crate) fn parse_toml(text: &str) -> (r: Result<toml::Value, TomlReadError>)
    requires
        toml_nesting_marks(text@) <= TOML_NESTING_LIMIT,
    ensures
        r is Ok <==> toml_accepts(text@),
{
    toml::from_str(text)
}

/// Relies on `serde_yaml::from_str` into a `serde_yaml::Value`: whether it
/// succeeds depends on the text alone.
#[verifier::external_body]
pub(crate) fn parse_yaml(text: &str) -> (r: Result<serde_yaml::Value, YamlError>)
    ensures
        r is Ok <==> yaml_accepts(text@),
{
    serde_yaml::from_str(text)
}

/// Relies on `TrySendError::into_send_error` of futures-channel, which drops
/// the unsent message and hands back the `SendError` that the failed send
/// produced.
#[verifier::external_body]
pub(crate) fn into_send_error<T>(
    e: futures_channel::mpsc::TrySendError<T>,
) -> futures_channel::mpsc::SendError {
    e.into_send_error()
}

} // verus!

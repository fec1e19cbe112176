//! Identifying a configuration document's format from its path, and loading
//! it with the parser of that format, as far as the format is available.

use vstd::prelude::*;
use vstd::string::*;

use crate::error::{ConfigError, Error, TomlError, NO_PATH};
use crate::foreign::{
    json_accepts, parse_json, parse_toml, parse_yaml, toml_accepts, toml_nesting_marks, yaml_accepts,
    TOML_NESTING_LIMIT,
};

verus! {

/// A structured-text format that a configuration document can be written in.
#[derive(Debug, Clone, Copy, PartialEq, Eq)]
pub enum ConfigFormat {
    Json,
    Toml,
    Yaml,
}

impl ConfigFormat {
    /// The canonical name of the format.
    pub open spec fn spec_name(self) -> &'static str {
        match self {
            ConfigFormat::Json => "JSON",
            ConfigFormat::Toml => "TOML",
            ConfigFormat::Yaml => "YAML",
        }
    }

    /// The canonical name of the format, as recorded in `ConfigFormatDisabled`.
    #[verifier::when_used_as_spec(spec_name)]
    pub fn name(self) -> (r: &'static str)
        ensures
            r == self.spec_name(),
    {
        match self {
            ConfigFormat::Json => "JSON",
            ConfigFormat::Toml => "TOML",
            ConfigFormat::Yaml => "YAML",
        }
    }
}

/// Which format parsers are available: a registry consulted when a document
/// is loaded.
#[derive(Debug, Clone, Copy, PartialEq, Eq)]
pub struct FormatSupport {
    pub json: bool,
    pub toml: bool,
    pub yaml: bool,
}

impl FormatSupport {
    /// Whether the parser of `f` is available.
    pub open spec fn spec_has(self, f: ConfigFormat) -> bool {
        match f {
            ConfigFormat::Json => self.json,
            ConfigFormat::Toml => self.toml,
            ConfigFormat::Yaml => self.yaml,
        }
    }

    /// Whether the parser of `f` is available.
    #[verifier::when_used_as_spec(spec_has)]
    pub fn has(self, f: ConfigFormat) -> (r: bool)
        ensures
            r == self.spec_has(f),
    {
        match f {
            ConfigFormat::Json => self.json,
            ConfigFormat::Toml => self.toml,
            ConfigFormat::Yaml => self.yaml,
        }
    }
}

/// Position `d` of path `p` holds the dot that starts the format marker: the
/// last dot of the final path component, with something before it in that
/// component, where the component is not `..`.
pub open spec fn is_marker_dot(p: Seq<char>, d: int) -> bool {
    &&& 0 < d < p.len()
    &&& p[d] == '.'
    &&& p[d - 1] != '/'
    &&& forall|j: int| d < j < p.len() ==> p[j] != '.' && p[j] != '/'
    &&& !(d + 1 == p.len() && p[d - 1] == '.' && (d == 1 || p[d - 2] == '/'))
}

/// The format marker (file extension) of a path, if it has one.
pub open spec fn spec_extension(p: Seq<char>) -> Option<Seq<char>> {
    if exists|d: int| is_marker_dot(p, d) {
        Some(p.subrange((choose|d: int| is_marker_dot(p, d)) + 1, p.len() as int))
    } else {
        None
    }
}

/// The format that a marker names, if any.
pub open spec fn format_for_marker(m: Seq<char>) -> Option<ConfigFormat> {
    if m == "json"@ {
        Some(ConfigFormat::Json)
    } else if m == "toml"@ {
        Some(ConfigFormat::Toml)
    } else if m == "yaml"@ || m == "yml"@ {
        Some(ConfigFormat::Yaml)
    } else {
        None
    }
}

/// `r` is what identifying the format of the document at `p` gives, with the
/// parsers of `s` available.
pub open spec fn identify_matches(
    p: Seq<char>,
    s: FormatSupport,
    r: Result<ConfigFormat, ConfigError>,
) -> bool {
    match spec_extension(p) {
        None => r matches Err(ConfigError::MissingExtension),
        Some(m) => match format_for_marker(m) {
            None => r matches Err(ConfigError::UnknownConfigFormat { format }) && format@ == m,
            Some(f) => if s.has(f) {
                r == Ok::<ConfigFormat, ConfigError>(f)
            } else {
                r matches Err(ConfigError::ConfigFormatDisabled { format }) && format == f.name()
            },
        },
    }
}

/// Whether `a` and `b` hold the same characters.
fn same_text(a: &str, b: &str) -> (r: bool)
    ensures
        r == (a@ == b@),
{
    let n = a.unicode_len();
    if n != b.unicode_len() {
        return false;
    }
    let mut i: usize = 0;
    while i < n
        invariant
            n == a@.len(),
            n == b@.len(),
            i <= n,
            forall|j: int| 0 <= j < i ==> a@[j] == b@[j],
        decreases n - i,
    {
        if a.get_char(i) != b.get_char(i) {
            return false;
        }
        i = i + 1;
    }
    proof {
        assert(a@ =~= b@);
    }
    true
}

/// The format marker (file extension) of `path`, if it has one.
pub fn extension(path: &str) -> (r: Option<&str>)
    ensures
        match r {
            Some(e) => spec_extension(path@) == Some(e@),
            None => spec_extension(path@) is None,
        },
{
    let p = Ghost(path@);
    let n = path.unicode_len();
    let mut i: usize = n;
    while i > 0
        invariant
            n == p@.len(),
            p@ == path@,
            i <= n,
            forall|j: int| i <= j < n ==> p@[j] != '.' && p@[j] != '/',
        decreases i,
    {
        let c = path.get_char(i - 1);
        if c == '/' {
            proof {
                assert forall|d: int| !is_marker_dot(p@, d) by {
                    if is_marker_dot(p@, d) && d < i - 1 {
                        assert(p@[i - 1] != '/');
                    }
                }
            }
            return None;
        }
        if c == '.' {
            let d = i - 1;
            let found = d > 0 && path.get_char(d - 1) != '/'
                && !(d + 1 == n && path.get_char(d - 1) == '.' && (d == 1 || path.get_char(d - 2) == '/'));
            if found {
                proof {
                    assert(is_marker_dot(p@, d as int));
                    assert forall|e: int| is_marker_dot(p@, e) implies e == d by {
                        if e < d {
                            assert(p@[d as int] != '.');
                        }
                    }
                }
                return Some(path.substring_char(i, n));
            } else {
                proof {
                    assert forall|e: int| !is_marker_dot(p@, e) by {
                        if is_marker_dot(p@, e) && e < d {
                            assert(p@[d as int] != '.');
                        }
                    }
                }
                return None;
            }
        }
        i = i - 1;
    }
    proof {
        assert forall|d: int| !is_marker_dot(p@, d) by {
            if is_marker_dot(p@, d) {
                assert(p@[d] != '.');
            }
        }
    }
    None
}

/// The format that marker `m` names, if any.
fn format_of_marker(m: &str) -> (r: Option<ConfigFormat>)
    ensures
        r == format_for_marker(m@),
{
    proof {
        reveal_strlit("json");
        reveal_strlit("toml");
        reveal_strlit("yaml");
        reveal_strlit("yml");
    }
    if same_text(m, "json") {
        Some(ConfigFormat::Json)
    } else if same_text(m, "toml") {
        Some(ConfigFormat::Toml)
    } else if same_text(m, "yaml") || same_text(m, "yml") {
        Some(ConfigFormat::Yaml)
    } else {
        None
    }
}

/// Identifies the format of the document at `path` from its marker, before
/// any parser runs: a path without a marker gives `MissingExtension`, one with
/// a marker that names no format gives `UnknownConfigFormat`, and one that
/// names a format whose parser is not available gives `ConfigFormatDisabled`.
pub fn identify_format(path: &str, support: &FormatSupport) -> (r: Result<ConfigFormat, ConfigError>)
    ensures
        identify_matches(path@, *support, r),
{
    match extension(path) {
        None => Err(ConfigError::MissingExtension),
        Some(m) => match format_of_marker(m) {
            None => Err(ConfigError::UnknownConfigFormat { format: String::from_str(m) }),
            Some(f) => if support.has(f) {
                Ok(f)
            } else {
                Err(ConfigError::ConfigFormatDisabled { format: f.name() })
            },
        },
    }
}

/// A parsed configuration document, in the format it was written in.
#[derive(Debug)]
pub enum Document {
    Json(serde_json::Value),
    Toml(toml::Value),
    Yaml(serde_yaml::Value),
}

impl Document {
    /// The format the document was parsed from.
    pub open spec fn spec_format(&self) -> ConfigFormat {
        match self {
            Document::Json(_) => ConfigFormat::Json,
            Document::Toml(_) => ConfigFormat::Toml,
            Document::Yaml(_) => ConfigFormat::Yaml,
        }
    }

    /// The format the document was parsed from.
    pub fn format(&self) -> (r: ConfigFormat)
        ensures
            r == self.spec_format(),
    {
        match self {
            Document::Json(_) => ConfigFormat::Json,
            Document::Toml(_) => ConfigFormat::Toml,
            Document::Yaml(_) => ConfigFormat::Yaml,
        }
    }
}

/// The format identified for the document at `p`, where its parser is
/// available.
pub open spec fn identified(p: Seq<char>, s: FormatSupport) -> Option<ConfigFormat> {
    match spec_extension(p) {
        Some(m) => match format_for_marker(m) {
            Some(f) => if s.has(f) {
                Some(f)
            } else {
                None
            },
            None => None,
        },
        None => None,
    }
}

/// Whether the parser of `f` accepts `text`.
pub open spec fn accepts(f: ConfigFormat, text: Seq<char>) -> bool {
    match f {
        ConfigFormat::Json => json_accepts(text),
        ConfigFormat::Toml => toml_accepts(text),
        ConfigFormat::Yaml => yaml_accepts(text),
    }
}

/// `c` is the parse failure of format `f`.
pub open spec fn is_parse_failure(f: ConfigFormat, c: ConfigError) -> bool {
    match f {
        ConfigFormat::Json => c is InvalidJson,
        ConfigFormat::Toml => c matches ConfigError::InvalidToml(TomlError::Read(_)),
        ConfigFormat::Yaml => c is InvalidYaml,
    }
}

/// `r` is what loading `text` from the document at `p` gives, with the parsers
/// of `s` available: the format is identified first, and only a document of an
/// identified, available format is parsed.
pub open spec fn load_matches(
    p: Seq<char>,
    s: FormatSupport,
    text: Seq<char>,
    r: Result<Document, Error>,
) -> bool {
    match r {
        Ok(d) => identified(p, s) == Some(d.spec_format()) && accepts(d.spec_format(), text),
        Err(e) => e matches Error::InvalidConfig { path, cause } && path@ == p && match identified(p, s) {
            None => identify_matches(p, s, Err(cause)),
            Some(f) => !accepts(f, text) && is_parse_failure(f, cause),
        },
    }
}

/// The error for a configuration failure `cause` of the document at `path`,
/// or at no path: then the path recorded is `NO_PATH`.
pub fn config_error(path: Option<&str>, cause: ConfigError) -> (r: Error)
    ensures
        r matches Error::InvalidConfig { path: p, cause: c } && c == cause && match path {
            Some(q) => p@ == q@,
            None => p@ == NO_PATH@,
        },
{
    match path {
        Some(q) => Error::InvalidConfig { path: String::from_str(q), cause },
        None => Error::InvalidConfig { path: String::from_str(NO_PATH), cause },
    }
}

/// Loads the configuration document at `path`, whose contents are `text`:
/// identifies its format, then parses it with that format's parser.
///
/// A TOML document is parsed only where it holds at most `TOML_NESTING_LIMIT`
/// characters that open a nesting level (see `toml_nesting_within_limit`).
pub fn load_document(path: &str, text: &str, support: &FormatSupport) -> (r: Result<Document, Error>)
    requires
        identified(path@, *support) == Some(ConfigFormat::Toml) ==> toml_nesting_marks(text@)
            <= TOML_NESTING_LIMIT,
    ensures
        load_matches(path@, *support, text@, r),
        r is Ok <==> (identified(path@, *support) matches Some(f) && accepts(f, text@)),
{
    match identify_format(path, support) {
        Err(cause) => Err(config_error(Some(path), cause)),
        Ok(ConfigFormat::Json) => match parse_json(text) {
            Ok(v) => Ok(Document::Json(v)),
            Err(e) => Err(config_error(Some(path), ConfigError::InvalidJson(e))),
        },
        Ok(ConfigFormat::Toml) => match parse_toml(text) {
            Ok(v) => Ok(Document::Toml(v)),
            Err(e) => Err(config_error(Some(path), ConfigError::InvalidToml(TomlError::Read(e)))),
        },
        Ok(ConfigFormat::Yaml) => match parse_yaml(text) {
            Ok(v) => Ok(Document::Yaml(v)),
            Err(e) => Err(config_error(Some(path), ConfigError::InvalidYaml(e))),
        },
    }
}

/// Checks that a parsed configuration names the fields that a connection
/// needs: a nickname first, then a server.
pub fn validate_required(path: Option<&str>, has_nickname: bool, has_server: bool) -> (r: Result<
    (),
    Error,
>)
    ensures
        r is Ok <==> has_nickname && has_server,
        !has_nickname ==> r matches Err(Error::InvalidConfig { cause: ConfigError::NicknameNotSpecified, .. }),
        has_nickname && !has_server ==> r matches Err(Error::InvalidConfig { cause: ConfigError::ServerNotSpecified, .. }),
        r matches Err(e) ==> e matches Error::InvalidConfig { path: p, .. } && match path {
            Some(q) => p@ == q@,
            None => p@ == NO_PATH@,
        },
{
    if !has_nickname {
        Err(config_error(path, ConfigError::NicknameNotSpecified))
    } else if !has_server {
        Err(config_error(path, ConfigError::ServerNotSpecified))
    } else {
        Ok(())
    }
}

} // verus!

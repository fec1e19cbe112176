use irc_error::config::{
    config_error, extension, identify_format, load_document, validate_required, ConfigFormat,
    Document, FormatSupport,
};
use irc_error::error::{ConfigError, Error, TomlError, NO_PATH};
use irc_error::foreign::{toml_nesting_within_limit, TOML_NESTING_LIMIT};
use irc_error::negotiation::{check_ping, next_nickname};
use irc_error::proto::{MessageParseError, ModeParseError, ProtocolError};

fn all_formats() -> FormatSupport {
    FormatSupport { json: true, toml: true, yaml: true }
}

#[test]
fn unknown_format_renders_its_marker() {
    let e = ConfigError::UnknownConfigFormat { format: "ini".to_string() };
    assert_eq!(e.message(), "config format unknown: ini");
}

#[test]
fn config_error_messages() {
    let e = ConfigError::ConfigFormatDisabled { format: "YAML" };
    assert_eq!(e.message(), "config format disabled: YAML");
    assert_eq!(ConfigError::MissingExtension.message(), "missing format extension");
    assert_eq!(ConfigError::NicknameNotSpecified.message(), "nickname not specified");
    assert_eq!(ConfigError::ServerNotSpecified.message(), "server not specified");
}

#[test]
fn error_messages_interpolate_fields() {
    let e = Error::InvalidConfig {
        path: "bot.toml".to_string(),
        cause: ConfigError::MissingExtension,
    };
    assert_eq!(e.message(), "invalid config: bot.toml");
    let e = Error::InvalidMessage {
        string: "FOO".to_string(),
        cause: MessageParseError::InvalidCommand,
    };
    assert_eq!(e.message(), "invalid message: FOO");
    let e = Error::UnknownCodec { codec: "klingon".to_string() };
    assert_eq!(e.message(), "unknown codec: klingon");
    let e = Error::CodecFailed { codec: "UTF-8", data: "\\xff".to_string() };
    assert_eq!(e.message(), "codec UTF-8 failed: \\xff");
    assert_eq!(Error::PoisonedLog.message(), "mutex for a logged transport was poisoned");
    assert_eq!(Error::PingTimeout.message(), "connection reset: no ping response");
    assert_eq!(Error::NoUsableNick.message(), "none of the specified nicknames were usable");
    assert_eq!(Error::StreamAlreadyConfigured.message(), "stream has already been configured");
}

#[test]
fn io_error_converts_with_its_cause() {
    let io = std::io::Error::new(std::io::ErrorKind::ConnectionReset, "peer went away");
    let e = Error::from(io);
    assert_eq!(e.message(), "an io error occurred");
    match e {
        Error::Io(inner) => {
            assert_eq!(inner.kind(), std::io::ErrorKind::ConnectionReset);
            assert_eq!(inner.to_string(), "peer went away");
        }
        other => panic!("unexpected {:?}", other),
    }
}

#[test]
fn tls_error_converts_with_its_cause() {
    let tls = match native_tls::Identity::from_pkcs12(b"not a pkcs12 archive", "") {
        Err(tls) => tls,
        Ok(_) => panic!("garbage accepted as an identity"),
    };
    let text = tls.to_string();
    let e = Error::from(tls);
    assert_eq!(e.message(), "a TLS error occurred");
    match e {
        Error::Tls(inner) => assert_eq!(inner.to_string(), text),
        other => panic!("unexpected {:?}", other),
    }
}

#[test]
fn sync_channel_closed_when_sender_dropped() {
    let (tx, rx) = std::sync::mpsc::channel::<u32>();
    drop(tx);
    let err = rx.recv().unwrap_err();
    let e = Error::from(err);
    assert_eq!(e.message(), "a sync channel closed");
    assert!(matches!(e, Error::SyncChannelClosed(std::sync::mpsc::RecvError)));
}

#[test]
fn async_channel_closed_when_receiver_dropped() {
    let (mut tx, rx) = futures_channel::mpsc::channel::<u32>(4);
    drop(rx);
    let err = tx.try_send(7).unwrap_err();
    assert!(err.is_disconnected());
    let e = Error::from(err);
    assert_eq!(e.message(), "an async channel closed");
    match e {
        Error::AsyncChannelClosed(inner) => {
            assert!(inner.is_disconnected());
            assert!(!inner.is_full());
        }
        other => panic!("unexpected {:?}", other),
    }
}

#[test]
fn try_send_failure_keeps_full_cause() {
    let (mut tx, _rx) = futures_channel::mpsc::channel::<u32>(0);
    tx.try_send(1).unwrap();
    let err = tx.try_send(2).unwrap_err();
    assert!(err.is_full());
    match Error::from(err) {
        Error::AsyncChannelClosed(inner) => {
            assert!(inner.is_full());
            assert!(!inner.is_disconnected());
        }
        other => panic!("unexpected {:?}", other),
    }
}

#[test]
fn send_error_converts_directly() {
    let (mut tx, rx) = futures_channel::mpsc::channel::<u32>(1);
    drop(rx);
    let send = tx.try_send(3).unwrap_err().into_send_error();
    match Error::from(send) {
        Error::AsyncChannelClosed(inner) => assert!(inner.is_disconnected()),
        other => panic!("unexpected {:?}", other),
    }
}

#[test]
fn oneshot_canceled_when_sender_dropped() {
    let (tx, mut rx) = futures_channel::oneshot::channel::<u32>();
    drop(tx);
    let canceled = rx.try_recv().unwrap_err();
    let e = Error::from(canceled);
    assert_eq!(e.message(), "a oneshot channel closed");
    assert!(matches!(e, Error::OneShotCanceled(futures_channel::oneshot::Canceled)));
}

#[test]
fn protocol_io_failure_passes_through() {
    let io = std::io::Error::new(std::io::ErrorKind::UnexpectedEof, "stream ended");
    let e = Error::from(ProtocolError::Io(io));
    match e {
        Error::Io(inner) => {
            assert_eq!(inner.kind(), std::io::ErrorKind::UnexpectedEof);
            assert_eq!(inner.to_string(), "stream ended");
        }
        other => panic!("unexpected {:?}", other),
    }
}

#[test]
fn protocol_parse_failure_keeps_text_and_cause() {
    let cause = MessageParseError::InvalidModeString {
        string: "x+o".to_string(),
        cause: ModeParseError::InvalidModeModifier { modifier: 'x' },
    };
    let e = Error::from(ProtocolError::InvalidMessage {
        string: "MODE #chan x+o".to_string(),
        cause: cause.clone(),
    });
    match &e {
        Error::InvalidMessage { string, cause: c } => {
            assert_eq!(string, "MODE #chan x+o");
            assert_eq!(c, &cause);
        }
        other => panic!("unexpected {:?}", other),
    }
    assert_eq!(e.message_cause(), Some(&cause));
    assert!(e.config_cause().is_none());
}

#[test]
fn disabled_format_is_never_parsed() {
    let support = FormatSupport { json: true, toml: true, yaml: false };
    for path in ["bot.yaml", "bot.yml"] {
        let e = load_document(path, ": : not yaml [", &support).unwrap_err();
        match e {
            Error::InvalidConfig { path: p, cause: ConfigError::ConfigFormatDisabled { format } } => {
                assert_eq!(p, path);
                assert_eq!(format, "YAML");
            }
            other => panic!("unexpected {:?}", other),
        }
    }
    let support = FormatSupport { json: false, toml: false, yaml: true };
    match identify_format("conf/bot.json", &support) {
        Err(ConfigError::ConfigFormatDisabled { format }) => assert_eq!(format, "JSON"),
        other => panic!("unexpected {:?}", other),
    }
    match identify_format("bot.toml", &support) {
        Err(ConfigError::ConfigFormatDisabled { format }) => assert_eq!(format, "TOML"),
        other => panic!("unexpected {:?}", other),
    }
}

#[test]
fn missing_and_unknown_extension_are_distinct() {
    let support = all_formats();
    assert!(matches!(identify_format("bot", &support), Err(ConfigError::MissingExtension)));
    match identify_format("bot.cfg", &support) {
        Err(ConfigError::UnknownConfigFormat { format }) => assert_eq!(format, "cfg"),
        other => panic!("unexpected {:?}", other),
    }
    // A marker that names a format, with no parser available, is neither.
    let none = FormatSupport { json: false, toml: false, yaml: false };
    assert!(matches!(
        identify_format("bot.toml", &none),
        Err(ConfigError::ConfigFormatDisabled { .. })
    ));
}

#[test]
fn unsupported_ini_config() {
    let e = load_document("bot.ini", "[server]\nhost = x\n", &all_formats()).unwrap_err();
    assert_eq!(e.message(), "invalid config: bot.ini");
    match e {
        Error::InvalidConfig { path, cause: ConfigError::UnknownConfigFormat { format } } => {
            assert_eq!(path, "bot.ini");
            assert_eq!(format, "ini");
        }
        other => panic!("unexpected {:?}", other),
    }
}

#[test]
fn config_without_extension() {
    let e = load_document("bot", "", &all_formats()).unwrap_err();
    match e {
        Error::InvalidConfig { path, cause: ConfigError::MissingExtension } => {
            assert_eq!(path, "bot")
        }
        other => panic!("unexpected {:?}", other),
    }
}

#[test]
fn format_markers() {
    assert_eq!(extension("bot.toml"), Some("toml"));
    assert_eq!(extension("conf.d/bot.yml"), Some("yml"));
    assert_eq!(extension("a/b.c.json"), Some("json"));
    assert_eq!(extension("bot."), Some(""));
    assert_eq!(extension("conf.d/bot"), None);
    assert_eq!(extension(".hidden"), None);
    assert_eq!(extension("dir/.hidden"), None);
    assert_eq!(extension(".."), None);
    assert_eq!(extension("a/.."), None);
    assert_eq!(extension(""), None);
    assert_eq!(extension("dir/"), None);
}

#[test]
fn yaml_and_yml_are_the_same_format() {
    let support = all_formats();
    assert_eq!(identify_format("bot.yaml", &support).unwrap(), ConfigFormat::Yaml);
    assert_eq!(identify_format("bot.yml", &support).unwrap(), ConfigFormat::Yaml);
    assert_eq!(identify_format("bot.json", &support).unwrap(), ConfigFormat::Json);
    assert_eq!(identify_format("bot.toml", &support).unwrap(), ConfigFormat::Toml);
    assert!(matches!(
        identify_format("bot.YAML", &support),
        Err(ConfigError::UnknownConfigFormat { .. })
    ));
}

#[test]
fn documents_parse_in_their_format() {
    let support = all_formats();
    let d = load_document("bot.json", "{\"nickname\": \"bot\"}", &support).unwrap();
    assert!(matches!(d, Document::Json(_)));
    assert_eq!(d.format(), ConfigFormat::Json);
    let d = load_document("bot.toml", "nickname = \"bot\"\n", &support).unwrap();
    assert!(matches!(d, Document::Toml(_)));
    let d = load_document("bot.yaml", "nickname: bot\n", &support).unwrap();
    assert!(matches!(d, Document::Yaml(_)));
}

#[test]
fn parse_failures_carry_the_parser_error() {
    let support = all_formats();
    match load_document("bot.json", "{\"nickname\": ", &support).unwrap_err() {
        Error::InvalidConfig { path, cause: ConfigError::InvalidJson(e) } => {
            assert_eq!(path, "bot.json");
            assert!(e.is_eof());
        }
        other => panic!("unexpected {:?}", other),
    }
    match load_document("bot.toml", "nickname = = 3", &support).unwrap_err() {
        Error::InvalidConfig { cause, .. } => {
            assert_eq!(cause.message(), "invalid toml");
            match cause.toml_cause() {
                Some(t @ TomlError::Read(_)) => assert_eq!(t.message(), "deserialization failed"),
                other => panic!("unexpected {:?}", other),
            }
        }
        other => panic!("unexpected {:?}", other),
    }
    match load_document("bot.yml", "a: [1, 2", &support).unwrap_err() {
        Error::InvalidConfig { cause: ConfigError::InvalidYaml(_), .. } => {}
        other => panic!("unexpected {:?}", other),
    }
}

#[test]
fn config_error_records_path_or_sentinel() {
    match config_error(None, ConfigError::ServerNotSpecified) {
        Error::InvalidConfig { path, cause: ConfigError::ServerNotSpecified } => {
            assert_eq!(path, NO_PATH);
            assert_eq!(path, "<none>");
        }
        other => panic!("unexpected {:?}", other),
    }
    match config_error(Some("irc.toml"), ConfigError::NicknameNotSpecified) {
        Error::InvalidConfig { path, .. } => assert_eq!(path, "irc.toml"),
        other => panic!("unexpected {:?}", other),
    }
}

#[test]
fn required_fields_are_checked_in_order() {
    assert!(validate_required(Some("bot.toml"), true, true).is_ok());
    match validate_required(Some("bot.toml"), false, false).unwrap_err() {
        Error::InvalidConfig { path, cause: ConfigError::NicknameNotSpecified } => {
            assert_eq!(path, "bot.toml")
        }
        other => panic!("unexpected {:?}", other),
    }
    match validate_required(None, true, false).unwrap_err() {
        Error::InvalidConfig { path, cause: ConfigError::ServerNotSpecified } => {
            assert_eq!(path, "<none>")
        }
        other => panic!("unexpected {:?}", other),
    }
}

#[test]
fn nickname_candidates_exhausted() {
    let nicks = vec!["bot".to_string(), "bot_".to_string()];
    assert_eq!(next_nickname(&nicks, 0).unwrap(), "bot");
    assert_eq!(next_nickname(&nicks, 1).unwrap(), "bot_");
    assert!(matches!(next_nickname(&nicks, 2), Err(Error::NoUsableNick)));
    assert!(matches!(next_nickname(&Vec::new(), 0), Err(Error::NoUsableNick)));
}

#[test]
fn ping_without_response_times_out() {
    assert!(matches!(check_ping(Some(100), 130, 30), Err(Error::PingTimeout)));
    assert!(matches!(check_ping(Some(100), 500, 30), Err(Error::PingTimeout)));
    assert!(check_ping(Some(100), 129, 30).is_ok());
    assert!(check_ping(None, u64::MAX, 30).is_ok());
    assert!(check_ping(Some(200), 100, 30).is_ok());
}

#[test]
fn toml_nesting_marks_are_counted() {
    assert!(toml_nesting_within_limit(""));
    assert!(toml_nesting_within_limit("nickname = \"bot\"\n[server]\nhost = \"irc.example.org\"\n"));
    let at_limit = "[".repeat(TOML_NESTING_LIMIT);
    assert!(toml_nesting_within_limit(&at_limit));
    let over = format!("{}.", at_limit);
    assert!(!toml_nesting_within_limit(&over));
    let mixed = "{.[".repeat(43);
    assert!(!toml_nesting_within_limit(&mixed));
    assert!(toml_nesting_within_limit(&"{.[".repeat(42)));
}

#[test]
fn toml_at_the_nesting_limit_parses() {
    let support = all_formats();
    let depth = TOML_NESTING_LIMIT - 1;
    let arrays = format!("a = {}{}\n", "[".repeat(depth), "]".repeat(depth));
    assert!(toml_nesting_within_limit(&arrays));
    let d = load_document("deep.toml", &arrays, &support).unwrap();
    assert!(matches!(d, Document::Toml(_)));
    let tables = format!("a = {}1{}\n", "{ b = ".repeat(depth), " }".repeat(depth));
    assert!(toml_nesting_within_limit(&tables));
    assert!(matches!(load_document("deep.toml", &tables, &support), Ok(Document::Toml(_))));
    let header = format!("[{}a]\nx = 1\n", "a.".repeat(depth));
    assert!(toml_nesting_within_limit(&header));
    assert!(matches!(load_document("deep.toml", &header, &support), Ok(Document::Toml(_))));
    let dotted = format!("{}a = 1\n", "a.".repeat(TOML_NESTING_LIMIT));
    assert!(toml_nesting_within_limit(&dotted));
    assert!(matches!(load_document("deep.toml", &dotted, &support), Ok(Document::Toml(_))));
}

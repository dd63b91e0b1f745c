use oms_check::error::{ErrorKind, Expected, SchemaError, SettingsError};
use oms_check::merge::merge;
use oms_check::materialize::materialize;
use oms_check::settings::{DatabaseSettings, Level, LogMode, LoggingSettings, ServerSettings, Settings, SyncSettings};
use oms_check::value::{Document, Entry, Kind, Value};

fn entry(key: &str, value: Value) -> Entry {
    Entry { key: key.to_string(), value }
}

fn text(value: &str) -> Value {
    Value::Text(value.to_string())
}

fn table(entries: Vec<Entry>) -> Value {
    Value::Table(entries)
}

fn server_fields() -> Vec<Entry> {
    vec![
        entry("port", Value::Integer(8000)),
        entry("cors_origins", Value::List(vec![text("http://localhost:3003")])),
    ]
}

fn database_fields() -> Vec<Entry> {
    vec![
        entry("username", text("postgres")),
        entry("port", Value::Integer(5432)),
        entry("host", text("localhost")),
    ]
}

fn required_only() -> Document {
    Document {
        entries: vec![
            entry("server", table(server_fields())),
            entry("database", table(database_fields())),
        ],
    }
}

/// The document of the required sections with one more section.
fn with_section(key: &str, value: Value) -> Document {
    let mut document = required_only();
    document.entries.push(entry(key, value));
    document
}

/// The document of the required sections with one field of the server section
/// set to `value`, replacing it where it is there.
fn with_server_field(key: &str, value: Value) -> Document {
    let mut fields: Vec<Entry> = server_fields().into_iter().filter(|field| field.key != key).collect();
    fields.push(entry(key, value));
    Document { entries: vec![entry("server", table(fields)), entry("database", table(database_fields()))] }
}

/// The document of the required sections without one field of the server section.
fn without_server_field(key: &str) -> Document {
    let fields: Vec<Entry> = server_fields().into_iter().filter(|field| field.key != key).collect();
    Document { entries: vec![entry("server", table(fields)), entry("database", table(database_fields()))] }
}

fn logging_with(fields: Vec<Entry>) -> Document {
    with_section("logging", table(fields))
}

fn minimal_logging() -> Vec<Entry> {
    vec![entry("mode", text("Console")), entry("level", text("Info"))]
}

fn missing(path: &str) -> SettingsError {
    SettingsError::Config(SchemaError::MissingField { path: path.to_string() })
}

fn mismatch(path: &str, expected: Expected) -> SettingsError {
    SettingsError::Config(SchemaError::TypeMismatch { path: path.to_string(), expected })
}

fn unknown(path: &str, expected: Expected) -> SettingsError {
    SettingsError::Config(SchemaError::UnknownVariant { path: path.to_string(), expected })
}

fn expected_required_only() -> Settings {
    Settings {
        server: ServerSettings {
            port: 8000,
            danger_allow_http: false,
            debug_no_access_control: false,
            cors_origins: vec!["http://localhost:3003".to_string()],
            base_dir: None,
            machine_uid: None,
        },
        database: DatabaseSettings { entries: database_fields() },
        sync: None,
        logging: None,
    }
}

#[test]
fn required_sections_alone_give_settings_without_the_optional_ones() {
    let settings = materialize(&required_only()).unwrap();
    assert!(settings.sync.is_none());
    assert!(settings.logging.is_none());
    assert_eq!(settings, expected_required_only());
}

#[test]
fn materializing_twice_gives_equal_settings() {
    let document = with_section("logging", table(minimal_logging()));
    assert_eq!(materialize(&document), materialize(&document));
    let broken = without_server_field("port");
    assert_eq!(materialize(&broken), materialize(&broken));
}

#[test]
fn materializing_leaves_the_document_as_it_was() {
    let document = required_only();
    let _ = materialize(&document);
    assert_eq!(document, required_only());
}

#[test]
fn every_field_of_every_section_is_decoded() {
    let document = Document {
        entries: vec![
            entry(
                "server",
                table(vec![
                    entry("port", Value::Integer(443)),
                    entry("danger_allow_http", Value::Boolean(true)),
                    entry("debug_no_access_control", Value::Boolean(true)),
                    entry("cors_origins", Value::List(vec![text("https://a.example"), text("https://b.example")])),
                    entry("base_dir", text("/var/lib/app")),
                    entry("machine_uid", text("machine-1")),
                ]),
            ),
            entry("database", table(database_fields())),
            entry(
                "sync",
                table(vec![
                    entry("url", text("https://central.example")),
                    entry("username", text("site")),
                    entry("password_sha256", text("abc123")),
                ]),
            ),
            entry(
                "logging",
                table(vec![
                    entry("mode", text("File")),
                    entry("level", text("Debug")),
                    entry("directory", text("/var/log/app")),
                    entry("filename", text("app.log")),
                    entry("max_file_count", Value::Integer(10)),
                    entry("max_file_size", Value::Integer(5)),
                ]),
            ),
        ],
    };
    let expected = Settings {
        server: ServerSettings {
            port: 443,
            danger_allow_http: true,
            debug_no_access_control: true,
            cors_origins: vec!["https://a.example".to_string(), "https://b.example".to_string()],
            base_dir: Some("/var/lib/app".to_string()),
            machine_uid: Some("machine-1".to_string()),
        },
        database: DatabaseSettings { entries: database_fields() },
        sync: Some(SyncSettings {
            url: "https://central.example".to_string(),
            username: "site".to_string(),
            password_sha256: "abc123".to_string(),
        }),
        logging: Some(LoggingSettings {
            mode: LogMode::File,
            level: Level::Debug,
            directory: Some("/var/log/app".to_string()),
            filename: Some("app.log".to_string()),
            max_file_count: Some(10),
            max_file_size: Some(5),
        }),
    };
    assert_eq!(materialize(&document), Ok(expected));
}

#[test]
fn overlay_without_the_port_fails_naming_server_port() {
    let base = Document {
        entries: vec![
            entry("server", table(vec![entry("cors_origins", Value::List(vec![]))])),
            entry("database", table(database_fields())),
        ],
    };
    let overlay = Document {
        entries: vec![entry("server", table(vec![entry("danger_allow_http", Value::Boolean(true))]))],
    };
    let merged = merge(&base, &overlay).unwrap();
    let outcome = materialize(&merged);
    assert_eq!(outcome, Err(missing("server.port")));
    let error = outcome.unwrap_err();
    assert_eq!(error.kind(), ErrorKind::Config);
    assert!(error.message().contains("server.port"));
}

#[test]
fn logging_with_mode_and_level_alone_has_no_rotation_fields() {
    let settings = materialize(&logging_with(minimal_logging())).unwrap();
    assert_eq!(
        settings.logging,
        Some(LoggingSettings {
            mode: LogMode::Console,
            level: Level::Info,
            directory: None,
            filename: None,
            max_file_count: None,
            max_file_size: None,
        })
    );
}

#[test]
fn logging_without_level_fails_naming_logging_level() {
    let outcome = materialize(&logging_with(vec![entry("mode", text("Console"))]));
    assert_eq!(outcome, Err(missing("logging.level")));
    let error = outcome.unwrap_err();
    assert_eq!(error.kind(), ErrorKind::Config);
    assert!(error.message().contains("logging.level"));
}

#[test]
fn logging_without_mode_fails_naming_logging_mode() {
    let outcome = materialize(&logging_with(vec![entry("level", text("Info"))]));
    assert_eq!(outcome, Err(missing("logging.mode")));
}

#[test]
fn empty_logging_section_is_not_an_absent_one() {
    assert_eq!(materialize(&logging_with(vec![])), Err(missing("logging.mode")));
}

#[test]
fn port_of_the_wrong_type_fails_naming_field_and_type() {
    let outcome = materialize(&with_server_field("port", text("abc")));
    assert_eq!(outcome, Err(mismatch("server.port", Expected::Port)));
    let error = outcome.unwrap_err();
    assert_eq!(error.kind(), ErrorKind::Config);
    assert_eq!(
        error.message(),
        "invalid type for `server.port`: expected an integer from 0 to 65535"
    );
}

#[test]
fn overlay_port_of_the_wrong_type_fails_the_resolution() {
    let overlay = Document { entries: vec![entry("server", table(vec![entry("port", text("abc"))]))] };
    let without_port = without_server_field("port");
    let merged = merge(&without_port, &overlay).unwrap();
    assert_eq!(materialize(&merged), Err(mismatch("server.port", Expected::Port)));
    let outcome = merge(&required_only(), &overlay);
    assert_eq!(
        outcome,
        Err(SettingsError::Config(SchemaError::Conflict {
            path: "server.port".to_string(),
            expected_kind: Kind::Integer,
            found_kind: Kind::Text,
        }))
    );
    assert_eq!(
        outcome.unwrap_err().message(),
        "conflicting types for `server.port`: the base holds an integer, the overlay a string"
    );
}

#[test]
fn numeric_text_is_not_a_number() {
    assert_eq!(
        materialize(&with_server_field("port", text("8000"))),
        Err(mismatch("server.port", Expected::Port))
    );
}

#[test]
fn port_must_fit_sixteen_bits() {
    assert_eq!(materialize(&with_server_field("port", Value::Integer(0))).unwrap().server.port, 0);
    assert_eq!(materialize(&with_server_field("port", Value::Integer(65535))).unwrap().server.port, 65535);
    for port in [65536, -1, i128::MAX, i128::MIN] {
        assert_eq!(
            materialize(&with_server_field("port", Value::Integer(port))),
            Err(mismatch("server.port", Expected::Port))
        );
    }
}

#[test]
fn port_of_any_other_kind_is_a_mismatch() {
    for value in [
        Value::Nil,
        Value::Boolean(true),
        Value::Float(0x40bf_4000_0000_0000),
        Value::List(vec![Value::Integer(8000)]),
        table(vec![]),
    ] {
        assert_eq!(
            materialize(&with_server_field("port", value)),
            Err(mismatch("server.port", Expected::Port))
        );
    }
}

#[test]
fn flags_default_to_false() {
    let settings = materialize(&required_only()).unwrap();
    assert!(!settings.server.danger_allow_http);
    assert!(!settings.server.debug_no_access_control);
    let settings = materialize(&with_server_field("danger_allow_http", Value::Boolean(true))).unwrap();
    assert!(settings.server.danger_allow_http);
    assert!(!settings.server.debug_no_access_control);
}

#[test]
fn flag_of_the_wrong_type_is_a_mismatch() {
    assert_eq!(
        materialize(&with_server_field("danger_allow_http", text("true"))),
        Err(mismatch("server.danger_allow_http", Expected::Boolean))
    );
    assert_eq!(
        materialize(&with_server_field("debug_no_access_control", Value::Integer(1))),
        Err(mismatch("server.debug_no_access_control", Expected::Boolean))
    );
    assert_eq!(
        materialize(&with_server_field("debug_no_access_control", Value::Nil)),
        Err(mismatch("server.debug_no_access_control", Expected::Boolean))
    );
}

#[test]
fn cors_origins_are_required_and_may_be_empty() {
    assert_eq!(materialize(&without_server_field("cors_origins")), Err(missing("server.cors_origins")));
    let settings = materialize(&with_server_field("cors_origins", Value::List(vec![]))).unwrap();
    assert_eq!(settings.server.cors_origins, Vec::<String>::new());
}

#[test]
fn cors_origins_must_be_a_list_of_strings() {
    assert_eq!(
        materialize(&with_server_field("cors_origins", text("http://localhost"))),
        Err(mismatch("server.cors_origins", Expected::TextList))
    );
    assert_eq!(
        materialize(&with_server_field(
            "cors_origins",
            Value::List(vec![text("http://localhost"), Value::Integer(1)])
        )),
        Err(mismatch("server.cors_origins", Expected::TextList))
    );
}

#[test]
fn optional_strings_are_absent_when_missing_or_null() {
    let settings = materialize(&with_server_field("base_dir", Value::Nil)).unwrap();
    assert_eq!(settings.server.base_dir, None);
    let settings = materialize(&with_server_field("machine_uid", text("uid"))).unwrap();
    assert_eq!(settings.server.machine_uid, Some("uid".to_string()));
    assert_eq!(settings.server.base_dir, None);
    assert_eq!(
        materialize(&with_server_field("base_dir", Value::Integer(1))),
        Err(mismatch("server.base_dir", Expected::Text))
    );
    assert_eq!(
        materialize(&with_server_field("machine_uid", Value::Boolean(false))),
        Err(mismatch("server.machine_uid", Expected::Text))
    );
}

#[test]
fn required_sections_must_be_present_mappings() {
    let only_database = Document { entries: vec![entry("database", table(database_fields()))] };
    assert_eq!(materialize(&only_database), Err(missing("server")));
    let only_server = Document { entries: vec![entry("server", table(server_fields()))] };
    assert_eq!(materialize(&only_server), Err(missing("database")));
    assert_eq!(materialize(&Document::new()), Err(missing("server")));
    let scalar_server = Document {
        entries: vec![entry("server", Value::Integer(1)), entry("database", table(database_fields()))],
    };
    assert_eq!(materialize(&scalar_server), Err(mismatch("server", Expected::Table)));
    let null_database =
        Document { entries: vec![entry("server", table(server_fields())), entry("database", Value::Nil)] };
    assert_eq!(materialize(&null_database), Err(mismatch("database", Expected::Table)));
}

#[test]
fn database_section_is_handed_on_as_it_is() {
    let settings = materialize(&required_only()).unwrap();
    assert_eq!(settings.database.entries, database_fields());
    let empty = Document {
        entries: vec![entry("server", table(server_fields())), entry("database", table(vec![]))],
    };
    assert_eq!(materialize(&empty).unwrap().database.entries, vec![]);
}

#[test]
fn optional_sections_are_absent_when_null() {
    let mut document = with_section("sync", Value::Nil);
    document.entries.push(entry("logging", Value::Nil));
    assert_eq!(materialize(&document), Ok(expected_required_only()));
}

#[test]
fn optional_sections_must_be_mappings_when_present() {
    assert_eq!(materialize(&with_section("sync", text("off"))), Err(mismatch("sync", Expected::Table)));
    assert_eq!(
        materialize(&with_section("logging", Value::List(vec![]))),
        Err(mismatch("logging", Expected::Table))
    );
}

#[test]
fn sync_section_needs_all_its_fields() {
    let url = || entry("url", text("https://central.example"));
    let username = || entry("username", text("site"));
    let password = || entry("password_sha256", text("abc123"));
    assert_eq!(materialize(&with_section("sync", table(vec![]))), Err(missing("sync.url")));
    assert_eq!(materialize(&with_section("sync", table(vec![url()]))), Err(missing("sync.username")));
    assert_eq!(
        materialize(&with_section("sync", table(vec![url(), username()]))),
        Err(missing("sync.password_sha256"))
    );
    assert_eq!(
        materialize(&with_section("sync", table(vec![url(), entry("username", Value::Integer(1)), password()]))),
        Err(mismatch("sync.username", Expected::Text))
    );
    let settings = materialize(&with_section("sync", table(vec![password(), username(), url()]))).unwrap();
    assert_eq!(
        settings.sync,
        Some(SyncSettings {
            url: "https://central.example".to_string(),
            username: "site".to_string(),
            password_sha256: "abc123".to_string(),
        })
    );
}

#[test]
fn log_mode_decodes_only_from_its_names() {
    for (name, mode) in [("All", LogMode::All), ("Console", LogMode::Console), ("File", LogMode::File)] {
        let document = logging_with(vec![entry("mode", text(name)), entry("level", text("Info"))]);
        assert_eq!(materialize(&document).unwrap().logging.unwrap().mode, mode);
        assert_eq!(LogMode::parse(name), Some(mode));
    }
    for name in ["Syslog", "console", "FILE", "", " All"] {
        let document = logging_with(vec![entry("mode", text(name)), entry("level", text("Info"))]);
        assert_eq!(materialize(&document), Err(unknown("logging.mode", Expected::LogMode)));
        assert_eq!(LogMode::parse(name), None);
    }
    let document = logging_with(vec![entry("mode", Value::Integer(1)), entry("level", text("Info"))]);
    assert_eq!(materialize(&document), Err(mismatch("logging.mode", Expected::LogMode)));
}

#[test]
fn level_decodes_only_from_its_names() {
    for (name, level) in [
        ("Error", Level::Error),
        ("Warn", Level::Warn),
        ("Info", Level::Info),
        ("Debug", Level::Debug),
        ("Trace", Level::Trace),
    ] {
        let document = logging_with(vec![entry("mode", text("All")), entry("level", text(name))]);
        assert_eq!(materialize(&document).unwrap().logging.unwrap().level, level);
        assert_eq!(Level::parse(name), Some(level));
    }
    for name in ["Off", "Verbose", "info", "WARN", ""] {
        let document = logging_with(vec![entry("mode", text("All")), entry("level", text(name))]);
        assert_eq!(materialize(&document), Err(unknown("logging.level", Expected::Level)));
        assert_eq!(Level::parse(name), None);
    }
    let document = logging_with(vec![entry("mode", text("All")), entry("level", Value::Nil)]);
    assert_eq!(materialize(&document), Err(mismatch("logging.level", Expected::Level)));
}

#[test]
fn unknown_variant_message_names_field_and_names() {
    let document = logging_with(vec![entry("mode", text("Syslog")), entry("level", text("Info"))]);
    assert_eq!(
        materialize(&document).unwrap_err().message(),
        "unknown variant for `logging.mode`: expected one of All, Console, File"
    );
}

#[test]
fn file_count_must_not_be_negative() {
    let with_count = |count: i128| {
        let mut fields = minimal_logging();
        fields.push(entry("max_file_count", Value::Integer(count)));
        materialize(&logging_with(fields))
    };
    assert_eq!(with_count(0).unwrap().logging.unwrap().max_file_count, Some(0));
    assert_eq!(with_count(99).unwrap().logging.unwrap().max_file_count, Some(99));
    assert_eq!(with_count(i64::MAX as i128).unwrap().logging.unwrap().max_file_count, Some(i64::MAX));
    assert_eq!(with_count(-1), Err(mismatch("logging.max_file_count", Expected::Count)));
    assert_eq!(
        with_count(i64::MAX as i128 + 1),
        Err(mismatch("logging.max_file_count", Expected::Count))
    );
}

#[test]
fn file_size_must_fit_the_machine_word() {
    let with_size = |size: i128| {
        let mut fields = minimal_logging();
        fields.push(entry("max_file_size", Value::Integer(size)));
        materialize(&logging_with(fields))
    };
    assert_eq!(with_size(0).unwrap().logging.unwrap().max_file_size, Some(0));
    assert_eq!(with_size(usize::MAX as i128).unwrap().logging.unwrap().max_file_size, Some(usize::MAX));
    assert_eq!(with_size(-5), Err(mismatch("logging.max_file_size", Expected::Size)));
    assert_eq!(with_size(usize::MAX as i128 + 1), Err(mismatch("logging.max_file_size", Expected::Size)));
}

#[test]
fn rotation_fields_are_absent_when_null_and_typed_when_present() {
    let mut fields = minimal_logging();
    fields.push(entry("directory", Value::Nil));
    fields.push(entry("filename", Value::Nil));
    fields.push(entry("max_file_count", Value::Nil));
    fields.push(entry("max_file_size", Value::Nil));
    let logging = materialize(&logging_with(fields)).unwrap().logging.unwrap();
    assert_eq!(logging.directory, None);
    assert_eq!(logging.filename, None);
    assert_eq!(logging.max_file_count, None);
    assert_eq!(logging.max_file_size, None);
    let mut fields = minimal_logging();
    fields.push(entry("filename", Value::Integer(1)));
    assert_eq!(materialize(&logging_with(fields)), Err(mismatch("logging.filename", Expected::Text)));
    let mut fields = minimal_logging();
    fields.push(entry("max_file_size", text("5")));
    assert_eq!(materialize(&logging_with(fields)), Err(mismatch("logging.max_file_size", Expected::Size)));
    let mut fields = minimal_logging();
    fields.push(entry("max_file_count", Value::Float(0x4024_0000_0000_0000)));
    assert_eq!(materialize(&logging_with(fields)), Err(mismatch("logging.max_file_count", Expected::Count)));
}

#[test]
fn first_fault_in_section_order_is_reported() {
    let document = Document {
        entries: vec![
            entry("logging", table(vec![])),
            entry("sync", table(vec![])),
            entry("server", table(vec![entry("cors_origins", text("x")), entry("port", text("x"))])),
        ],
    };
    assert_eq!(materialize(&document), Err(mismatch("server.port", Expected::Port)));
    let document = Document {
        entries: vec![
            entry("logging", table(vec![])),
            entry("sync", table(vec![])),
            entry("server", table(server_fields())),
        ],
    };
    assert_eq!(materialize(&document), Err(missing("database")));
    let document = Document {
        entries: vec![
            entry("logging", table(vec![])),
            entry("sync", table(vec![])),
            entry("server", table(server_fields())),
            entry("database", table(vec![])),
        ],
    };
    assert_eq!(materialize(&document), Err(missing("sync.url")));
}

#[test]
fn keys_outside_the_schema_are_ignored() {
    let mut document = with_server_field("threads", Value::Integer(4));
    document.entries.push(entry("features", Value::List(vec![text("x")])));
    assert_eq!(materialize(&document).unwrap().server.port, 8000);
}

use config::{ConfigError, File, FileFormat, Source, ValueKind};
use oms_check::configuration::{get_configuration, DirectoryLookup, SourceRead};
use oms_check::environment::EnvironmentLookup;
use oms_check::error::{ErrorKind, Expected, SchemaError, SettingsError};
use oms_check::settings::{Level, LogMode, LoggingSettings, Settings};
use oms_check::value::{Document, Entry, Kind, Value};

fn value_from(kind: ValueKind) -> Value {
    match kind {
        ValueKind::Nil => Value::Nil,
        ValueKind::Boolean(flag) => Value::Boolean(flag),
        ValueKind::I64(number) => Value::Integer(number.into()),
        ValueKind::I128(number) => Value::Integer(number),
        ValueKind::U64(number) => Value::Integer(number.into()),
        ValueKind::U128(number) => Value::Integer(i128::try_from(number).unwrap()),
        ValueKind::Float(number) => Value::Float(number.to_bits()),
        ValueKind::String(text) => Value::Text(text),
        ValueKind::Table(table) => Value::Table(entries_from(table)),
        ValueKind::Array(items) => {
            Value::List(items.into_iter().map(|item| value_from(item.kind)).collect())
        }
    }
}

fn entries_from(table: impl IntoIterator<Item = (String, config::Value)>) -> Vec<Entry> {
    table.into_iter().map(|(key, value)| Entry { key, value: value_from(value.kind) }).collect()
}

/// What reading a source with this text gives.
fn source(text: &str) -> SourceRead {
    match File::from_str(text, FileFormat::Yaml).collect() {
        Ok(table) => SourceRead::Parsed(Document { entries: entries_from(table) }),
        Err(error @ ConfigError::FileParse { .. }) => {
            SourceRead::Malformed { message: error.to_string() }
        }
        Err(error) => SourceRead::Unreadable { cause: error.to_string() },
    }
}

fn resolve(base: &str, overlay: &str) -> Result<Settings, SettingsError> {
    get_configuration(
        EnvironmentLookup::Unset,
        DirectoryLookup::Found("/srv/app".to_string()),
        source(base),
        source(overlay),
    )
}

const BASE: &str = "\
server:
  port: 8000
  danger_allow_http: false
  debug_no_access_control: false
  cors_origins: [http://localhost:3003, https://demo-open.msupply.org]
database:
  username: postgres
  password: password
  port: 5432
  host: localhost
  database_name: omsupply-database
sync:
  url: https://central.example
  username: site
  password_sha256: 5e884898da28047151d0e56f8dc6292773603d0d
";

const LOCAL: &str = "\
server:
  port: 8001
  danger_allow_http: true
logging:
  mode: Console
  level: Info
";

#[test]
fn yaml_sources_resolve_to_settings() {
    let settings = resolve(BASE, LOCAL).unwrap();
    assert_eq!(settings.server.port, 8001);
    assert!(settings.server.danger_allow_http);
    assert!(!settings.server.debug_no_access_control);
    assert_eq!(
        settings.server.cors_origins,
        vec!["http://localhost:3003".to_string(), "https://demo-open.msupply.org".to_string()]
    );
    assert_eq!(settings.server.base_dir, None);
    let sync = settings.sync.unwrap();
    assert_eq!(sync.url, "https://central.example");
    assert_eq!(sync.username, "site");
    assert_eq!(
        settings.logging,
        Some(LoggingSettings {
            mode: LogMode::Console,
            level: Level::Info,
            directory: None,
            filename: None,
            max_file_count: None,
            max_file_size: None,
        })
    );
    let database = Document { entries: settings.database.entries };
    assert_eq!(database.get("port"), Some(&Value::Integer(5432)));
    assert_eq!(database.get("database_name"), Some(&Value::Text("omsupply-database".to_string())));
}

#[test]
fn yaml_document_keeps_the_order_of_its_keys() {
    let SourceRead::Parsed(document) = source("b: 1\na: ~\nc: 1.5\nd: [x, 2]\n") else {
        panic!("the text is a document");
    };
    assert_eq!(
        document.entries,
        vec![
            Entry { key: "b".to_string(), value: Value::Integer(1) },
            Entry { key: "a".to_string(), value: Value::Nil },
            Entry { key: "c".to_string(), value: Value::Float(1.5f64.to_bits()) },
            Entry {
                key: "d".to_string(),
                value: Value::List(vec![Value::Text("x".to_string()), Value::Integer(2)]),
            },
        ]
    );
}

#[test]
fn empty_yaml_overlay_leaves_the_base_settings() {
    assert_eq!(resolve(BASE, ""), resolve(BASE, "{}"));
    assert_eq!(resolve(BASE, "").unwrap().server.port, 8000);
    assert!(resolve(BASE, "").unwrap().logging.is_none());
}

#[test]
fn yaml_overlay_without_the_port_fails_naming_server_port() {
    let base = "server:\n  cors_origins: []\ndatabase:\n  host: localhost\n";
    let overlay = "server:\n  danger_allow_http: true\n";
    let outcome = resolve(base, overlay);
    assert_eq!(
        outcome,
        Err(SettingsError::Config(SchemaError::MissingField { path: "server.port".to_string() }))
    );
    assert_eq!(outcome.unwrap_err().kind(), ErrorKind::Config);
}

#[test]
fn yaml_logging_with_mode_but_no_level_fails_naming_logging_level() {
    let outcome = resolve(BASE, "logging:\n  mode: File\n");
    assert_eq!(
        outcome,
        Err(SettingsError::Config(SchemaError::MissingField { path: "logging.level".to_string() }))
    );
}

#[test]
fn yaml_overlay_port_of_the_wrong_type_fails_naming_the_field() {
    let outcome = resolve(BASE, "server:\n  port: \"abc\"\n");
    assert_eq!(
        outcome,
        Err(SettingsError::Config(SchemaError::Conflict {
            path: "server.port".to_string(),
            expected_kind: Kind::Integer,
            found_kind: Kind::Text,
        }))
    );
    let base = "server:\n  cors_origins: []\ndatabase: {}\n";
    let outcome = resolve(base, "server:\n  port: abc\n");
    assert_eq!(
        outcome,
        Err(SettingsError::Config(SchemaError::TypeMismatch {
            path: "server.port".to_string(),
            expected: Expected::Port,
        }))
    );
    assert_eq!(outcome.unwrap_err().kind(), ErrorKind::Config);
}

#[test]
fn yaml_keys_are_taken_as_they_are_written() {
    let capitalized = BASE.replace("server:", "Server:");
    assert_eq!(
        resolve(&capitalized, ""),
        Err(SettingsError::Config(SchemaError::MissingField { path: "server".to_string() }))
    );
    let dotted = "server.port: 9000\n";
    assert_eq!(resolve(BASE, dotted).unwrap().server.port, 8000);
}

#[test]
fn yaml_enum_names_are_taken_as_they_are_written() {
    assert_eq!(
        resolve(BASE, "logging:\n  mode: console\n  level: Info\n"),
        Err(SettingsError::Config(SchemaError::UnknownVariant {
            path: "logging.mode".to_string(),
            expected: Expected::LogMode,
        }))
    );
}

#[test]
fn malformed_yaml_is_a_config_failure_naming_the_source() {
    let outcome = resolve(BASE, "server: [unclosed\n");
    match outcome {
        Err(SettingsError::Config(SchemaError::Syntax { source, message })) => {
            assert_eq!(source, "/srv/app/configuration/local.yaml");
            assert!(!message.is_empty());
            let error = SettingsError::Config(SchemaError::Syntax { source, message: message.clone() });
            assert_eq!(error.message(), message);
        }
        other => panic!("unexpected outcome: {other:?}"),
    }
}

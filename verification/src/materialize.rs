//! The materializer: decodes a merged document into the typed settings tree.
//!
//! Decoding is strict: a field is taken only from a value of its own type, and a
//! number only within the range of its field. A required field that is absent
//! fails the whole; an optional field or section is absent when its key is
//! missing or null, and decoded in full when it is there. The sections and their
//! fields are decoded in a fixed order, and the first one that fails is the one
//! reported.

use vstd::prelude::*;
use vstd::string::*;

use crate::error::{Expected, SchemaError, SchemaFault, SettingsError, SettingsFault};
use crate::settings::{
    text_of, texts_of, DatabaseSettings, Level, LogMode, LoggingModel, LoggingSettings,
    ServerModel, ServerSettings, Settings, SettingsModel, SyncModel, SyncSettings,
};
use crate::value::{
    duplicate_entries, find, lookup, members_of, nodes_of, Document, Entry, Member, Node, Value,
};

verus! {

/// The fault for a field that holds a value of another type.
pub open spec fn mismatch(path: Seq<char>, expected: Expected) -> SchemaFault {
    SchemaFault::TypeMismatch { path, expected }
}

/// A flag: `false` when absent, else the boolean that the field holds.
pub open spec fn flag_in(found: Option<Node>, path: Seq<char>) -> Result<bool, SchemaFault> {
    match found {
        None => Ok(false),
        Some(Node::Boolean(flag)) => Ok(flag),
        Some(_) => Err(mismatch(path, Expected::Boolean)),
    }
}

/// A required number from 0 to `largest`.
pub open spec fn number_in(
    found: Option<Node>,
    path: Seq<char>,
    expected: Expected,
    largest: int,
) -> Result<int, SchemaFault> {
    match found {
        None => Err(SchemaFault::MissingField { path }),
        Some(Node::Integer(number)) => if 0 <= number <= largest {
            Ok(number)
        } else {
            Err(mismatch(path, expected))
        },
        Some(_) => Err(mismatch(path, expected)),
    }
}

/// An optional number from 0 to `largest`: absent when the field is missing or
/// null.
pub open spec fn optional_number_in(
    found: Option<Node>,
    path: Seq<char>,
    expected: Expected,
    largest: int,
) -> Result<Option<int>, SchemaFault> {
    match found {
        None => Ok(None),
        Some(Node::Nil) => Ok(None),
        Some(Node::Integer(number)) => if 0 <= number <= largest {
            Ok(Some(number))
        } else {
            Err(mismatch(path, expected))
        },
        Some(_) => Err(mismatch(path, expected)),
    }
}

/// A required string.
pub open spec fn text_in(found: Option<Node>, path: Seq<char>) -> Result<Seq<char>, SchemaFault> {
    match found {
        None => Err(SchemaFault::MissingField { path }),
        Some(Node::Text(text)) => Ok(text),
        Some(_) => Err(mismatch(path, Expected::Text)),
    }
}

/// An optional string: absent when the field is missing or null.
pub open spec fn optional_text_in(found: Option<Node>, path: Seq<char>) -> Result<
    Option<Seq<char>>,
    SchemaFault,
> {
    match found {
        None => Ok(None),
        Some(Node::Nil) => Ok(None),
        Some(Node::Text(text)) => Ok(Some(text)),
        Some(_) => Err(mismatch(path, Expected::Text)),
    }
}

/// A required list of strings.
pub open spec fn text_list_in(found: Option<Node>, path: Seq<char>) -> Result<
    Seq<Seq<char>>,
    SchemaFault,
> {
    match found {
        None => Err(SchemaFault::MissingField { path }),
        Some(Node::List(items)) => if forall|i: int| 0 <= i < items.len() ==> items[i] is Text {
            Ok(Seq::new(items.len(), |i: int| items[i]->Text_0))
        } else {
            Err(mismatch(path, Expected::TextList))
        },
        Some(_) => Err(mismatch(path, Expected::TextList)),
    }
}

/// A required log mode, by its name.
pub open spec fn log_mode_in(found: Option<Node>, path: Seq<char>) -> Result<
    LogMode,
    SchemaFault,
> {
    match found {
        None => Err(SchemaFault::MissingField { path }),
        Some(Node::Text(text)) => match LogMode::named(text) {
            Some(mode) => Ok(mode),
            None => Err(SchemaFault::UnknownVariant { path, expected: Expected::LogMode }),
        },
        Some(_) => Err(mismatch(path, Expected::LogMode)),
    }
}

/// A required level, by its name.
pub open spec fn level_in(found: Option<Node>, path: Seq<char>) -> Result<Level, SchemaFault> {
    match found {
        None => Err(SchemaFault::MissingField { path }),
        Some(Node::Text(text)) => match Level::named(text) {
            Some(level) => Ok(level),
            None => Err(SchemaFault::UnknownVariant { path, expected: Expected::Level }),
        },
        Some(_) => Err(mismatch(path, Expected::Level)),
    }
}

/// The server section, decoded field by field.
pub open spec fn server_in(section: Seq<Member>) -> Result<ServerModel, SchemaFault> {
    match number_in(find(section, "port"@), "server.port"@, Expected::Port, u16::MAX as int) {
        Err(fault) => Err(fault),
        Ok(port) => match flag_in(
            find(section, "danger_allow_http"@),
            "server.danger_allow_http"@,
        ) {
            Err(fault) => Err(fault),
            Ok(danger_allow_http) => match flag_in(
                find(section, "debug_no_access_control"@),
                "server.debug_no_access_control"@,
            ) {
                Err(fault) => Err(fault),
                Ok(debug_no_access_control) => match text_list_in(
                    find(section, "cors_origins"@),
                    "server.cors_origins"@,
                ) {
                    Err(fault) => Err(fault),
                    Ok(cors_origins) => match optional_text_in(
                        find(section, "base_dir"@),
                        "server.base_dir"@,
                    ) {
                        Err(fault) => Err(fault),
                        Ok(base_dir) => match optional_text_in(
                            find(section, "machine_uid"@),
                            "server.machine_uid"@,
                        ) {
                            Err(fault) => Err(fault),
                            Ok(machine_uid) => Ok(
                                ServerModel {
                                    port: port as u16,
                                    danger_allow_http,
                                    debug_no_access_control,
                                    cors_origins,
                                    base_dir,
                                    machine_uid,
                                },
                            ),
                        },
                    },
                },
            },
        },
    }
}

/// The sync section, decoded field by field.
pub open spec fn sync_in(section: Seq<Member>) -> Result<SyncModel, SchemaFault> {
    match text_in(find(section, "url"@), "sync.url"@) {
        Err(fault) => Err(fault),
        Ok(url) => match text_in(find(section, "username"@), "sync.username"@) {
            Err(fault) => Err(fault),
            Ok(username) => match text_in(
                find(section, "password_sha256"@),
                "sync.password_sha256"@,
            ) {
                Err(fault) => Err(fault),
                Ok(password_sha256) => Ok(SyncModel { url, username, password_sha256 }),
            },
        },
    }
}

/// The logging section, decoded field by field.
pub open spec fn logging_in(section: Seq<Member>) -> Result<LoggingModel, SchemaFault> {
    match log_mode_in(find(section, "mode"@), "logging.mode"@) {
        Err(fault) => Err(fault),
        Ok(mode) => match level_in(find(section, "level"@), "logging.level"@) {
            Err(fault) => Err(fault),
            Ok(level) => match optional_text_in(
                find(section, "directory"@),
                "logging.directory"@,
            ) {
                Err(fault) => Err(fault),
                Ok(directory) => match optional_text_in(
                    find(section, "filename"@),
                    "logging.filename"@,
                ) {
                    Err(fault) => Err(fault),
                    Ok(filename) => match optional_number_in(
                        find(section, "max_file_count"@),
                        "logging.max_file_count"@,
                        Expected::Count,
                        i64::MAX as int,
                    ) {
                        Err(fault) => Err(fault),
                        Ok(max_file_count) => match optional_number_in(
                            find(section, "max_file_size"@),
                            "logging.max_file_size"@,
                            Expected::Size,
                            usize::MAX as int,
                        ) {
                            Err(fault) => Err(fault),
                            Ok(max_file_size) => Ok(
                                LoggingModel {
                                    mode,
                                    level,
                                    directory,
                                    filename,
                                    max_file_count: match max_file_count {
                                        Some(count) => Some(count as i64),
                                        None => None,
                                    },
                                    max_file_size: match max_file_size {
                                        Some(size) => Some(size as usize),
                                        None => None,
                                    },
                                },
                            ),
                        },
                    },
                },
            },
        },
    }
}

/// A required section: the members of the mapping under its key.
pub open spec fn section_in(found: Option<Node>, path: Seq<char>) -> Result<
    Seq<Member>,
    SchemaFault,
> {
    match found {
        None => Err(SchemaFault::MissingField { path }),
        Some(Node::Table(members)) => Ok(members),
        Some(_) => Err(mismatch(path, Expected::Table)),
    }
}

/// An optional section: absent when its key is missing or null.
pub open spec fn optional_section_in(found: Option<Node>, path: Seq<char>) -> Result<
    Option<Seq<Member>>,
    SchemaFault,
> {
    match found {
        None => Ok(None),
        Some(Node::Nil) => Ok(None),
        Some(Node::Table(members)) => Ok(Some(members)),
        Some(_) => Err(mismatch(path, Expected::Table)),
    }
}

/// The sync settings of a document: absent without the section, else the
/// section decoded in full.
pub open spec fn optional_sync_in(document: Seq<Member>) -> Result<Option<SyncModel>, SchemaFault> {
    match optional_section_in(find(document, "sync"@), "sync"@) {
        Err(fault) => Err(fault),
        Ok(None) => Ok(None),
        Ok(Some(section)) => match sync_in(section) {
            Err(fault) => Err(fault),
            Ok(sync) => Ok(Some(sync)),
        },
    }
}

/// The logging settings of a document: absent without the section, else the
/// section decoded in full.
pub open spec fn optional_logging_in(document: Seq<Member>) -> Result<
    Option<LoggingModel>,
    SchemaFault,
> {
    match optional_section_in(find(document, "logging"@), "logging"@) {
        Err(fault) => Err(fault),
        Ok(None) => Ok(None),
        Ok(Some(section)) => match logging_in(section) {
            Err(fault) => Err(fault),
            Ok(logging) => Ok(Some(logging)),
        },
    }
}

/// The settings that a document holds, or the first fault in the order server,
/// database, sync, logging.
pub open spec fn settings_in(document: Seq<Member>) -> Result<SettingsModel, SchemaFault> {
    match section_in(find(document, "server"@), "server"@) {
        Err(fault) => Err(fault),
        Ok(server_section) => match server_in(server_section) {
            Err(fault) => Err(fault),
            Ok(server) => match section_in(find(document, "database"@), "database"@) {
                Err(fault) => Err(fault),
                Ok(database) => match optional_sync_in(document) {
                    Err(fault) => Err(fault),
                    Ok(sync) => match optional_logging_in(document) {
                        Err(fault) => Err(fault),
                        Ok(logging) => Ok(SettingsModel { server, database, sync, logging }),
                    },
                },
            },
        },
    }
}

/// What materializing a document gives: its settings, or a failure of the config
/// kind with the first fault.
pub open spec fn materialized(document: Seq<Member>) -> Result<SettingsModel, SettingsFault> {
    match settings_in(document) {
        Ok(settings) => Ok(settings),
        Err(fault) => Err(SettingsFault::Config(fault)),
    }
}

/// Whether `outcome` is what materializing `document` gives.
pub open spec fn materializes_to(
    document: Seq<Member>,
    outcome: Result<Settings, SettingsError>,
) -> bool {
    match outcome {
        Ok(settings) => materialized(document) == Ok::<SettingsModel, SettingsFault>(settings@),
        Err(error) => materialized(document) == Err::<SettingsModel, SettingsFault>(error@),
    }
}

fn wrong_type(path: &str, expected: Expected) -> (error: SchemaError)
    ensures
        error@ == mismatch(path@, expected),
{
    SchemaError::TypeMismatch { path: path.to_owned(), expected }
}

fn missing(path: &str) -> (error: SchemaError)
    ensures
        error@ == (SchemaFault::MissingField { path: path@ }),
{
    SchemaError::MissingField { path: path.to_owned() }
}

/// The content of what a lookup found.
pub open spec fn found_node(found: Option<&Value>) -> Option<Node> {
    match found {
        Some(value) => Some(value@),
        None => None,
    }
}

fn decode_flag(found: Option<&Value>, path: &str) -> (outcome: Result<bool, SchemaError>)
    ensures
        match outcome {
            Ok(flag) => flag_in(found_node(found), path@) == Ok::<bool, SchemaFault>(flag),
            Err(error) => flag_in(found_node(found), path@) == Err::<bool, SchemaFault>(error@),
        },
{
    match found {
        None => Ok(false),
        Some(Value::Boolean(flag)) => Ok(*flag),
        Some(_) => Err(wrong_type(path, Expected::Boolean)),
    }
}

fn decode_number(found: Option<&Value>, path: &str, expected: Expected, largest: i128) -> (outcome:
    Result<i128, SchemaError>)
    ensures
        match outcome {
            Ok(number) => number_in(found_node(found), path@, expected, largest as int) == Ok::<
                int,
                SchemaFault,
            >(number as int),
            Err(error) => number_in(found_node(found), path@, expected, largest as int) == Err::<
                int,
                SchemaFault,
            >(error@),
        },
{
    match found {
        None => Err(missing(path)),
        Some(Value::Integer(number)) => if 0 <= *number && *number <= largest {
            Ok(*number)
        } else {
            Err(wrong_type(path, expected))
        },
        Some(_) => Err(wrong_type(path, expected)),
    }
}

fn decode_optional_number(
    found: Option<&Value>,
    path: &str,
    expected: Expected,
    largest: i128,
) -> (outcome: Result<Option<i128>, SchemaError>)
    ensures
        match outcome {
            Ok(Some(number)) => optional_number_in(
                found_node(found),
                path@,
                expected,
                largest as int,
            ) == Ok::<Option<int>, SchemaFault>(Some(number as int)),
            Ok(None) => optional_number_in(found_node(found), path@, expected, largest as int)
                == Ok::<Option<int>, SchemaFault>(None),
            Err(error) => optional_number_in(found_node(found), path@, expected, largest as int)
                == Err::<Option<int>, SchemaFault>(error@),
        },
{
    match found {
        None => Ok(None),
        Some(Value::Nil) => Ok(None),
        Some(Value::Integer(number)) => if 0 <= *number && *number <= largest {
            Ok(Some(*number))
        } else {
            Err(wrong_type(path, expected))
        },
        Some(_) => Err(wrong_type(path, expected)),
    }
}

fn decode_text(found: Option<&Value>, path: &str) -> (outcome: Result<String, SchemaError>)
    ensures
        match outcome {
            Ok(text) => text_in(found_node(found), path@) == Ok::<Seq<char>, SchemaFault>(text@),
            Err(error) => text_in(found_node(found), path@) == Err::<Seq<char>, SchemaFault>(
                error@,
            ),
        },
{
    match found {
        None => Err(missing(path)),
        Some(Value::Text(text)) => Ok(text.clone()),
        Some(_) => Err(wrong_type(path, Expected::Text)),
    }
}

fn decode_optional_text(found: Option<&Value>, path: &str) -> (outcome: Result<
    Option<String>,
    SchemaError,
>)
    ensures
        match outcome {
            Ok(text) => optional_text_in(found_node(found), path@) == Ok::<
                Option<Seq<char>>,
                SchemaFault,
            >(text_of(text)),
            Err(error) => optional_text_in(found_node(found), path@) == Err::<
                Option<Seq<char>>,
                SchemaFault,
            >(error@),
        },
{
    match found {
        None => Ok(None),
        Some(Value::Nil) => Ok(None),
        Some(Value::Text(text)) => Ok(Some(text.clone())),
        Some(_) => Err(wrong_type(path, Expected::Text)),
    }
}

fn decode_text_list(found: Option<&Value>, path: &str) -> (outcome: Result<
    Vec<String>,
    SchemaError,
>)
    ensures
        match outcome {
            Ok(texts) => text_list_in(found_node(found), path@) == Ok::<
                Seq<Seq<char>>,
                SchemaFault,
            >(texts_of(texts@)),
            Err(error) => text_list_in(found_node(found), path@) == Err::<
                Seq<Seq<char>>,
                SchemaFault,
            >(error@),
        },
{
    match found {
        None => Err(missing(path)),
        Some(Value::List(items)) => {
            let ghost nodes = nodes_of(items@);
            let mut texts: Vec<String> = Vec::new();
            let mut i: usize = 0;
            while i < items.len()
                invariant
                    i <= items.len(),
                    nodes == nodes_of(items@),
                    found_node(found) == Some(Node::List(nodes)),
                    texts.len() == i,
                    forall|j: int| 0 <= j < i ==> nodes[j] == Node::Text(texts[j]@),
                decreases items.len() - i,
            {
                assert(nodes[i as int] == items[i as int]@);
                match &items[i] {
                    Value::Text(text) => {
                        texts.push(text.clone());
                    },
                    _ => {
                        assert(!(nodes[i as int] is Text));
                        return Err(wrong_type(path, Expected::TextList));
                    },
                }
                i += 1;
            }
            assert(texts_of(texts@) =~= Seq::new(nodes.len(), |i: int| nodes[i]->Text_0));
            Ok(texts)
        },
        Some(_) => Err(wrong_type(path, Expected::TextList)),
    }
}

fn decode_log_mode(found: Option<&Value>, path: &str) -> (outcome: Result<LogMode, SchemaError>)
    ensures
        match outcome {
            Ok(mode) => log_mode_in(found_node(found), path@) == Ok::<LogMode, SchemaFault>(mode),
            Err(error) => log_mode_in(found_node(found), path@) == Err::<LogMode, SchemaFault>(
                error@,
            ),
        },
{
    match found {
        None => Err(missing(path)),
        Some(Value::Text(text)) => match LogMode::parse(text.as_str()) {
            Some(mode) => Ok(mode),
            None => Err(
                SchemaError::UnknownVariant { path: path.to_owned(), expected: Expected::LogMode },
            ),
        },
        Some(_) => Err(wrong_type(path, Expected::LogMode)),
    }
}

fn decode_level(found: Option<&Value>, path: &str) -> (outcome: Result<Level, SchemaError>)
    ensures
        match outcome {
            Ok(level) => level_in(found_node(found), path@) == Ok::<Level, SchemaFault>(level),
            Err(error) => level_in(found_node(found), path@) == Err::<Level, SchemaFault>(error@),
        },
{
    match found {
        None => Err(missing(path)),
        Some(Value::Text(text)) => match Level::parse(text.as_str()) {
            Some(level) => Ok(level),
            None => Err(
                SchemaError::UnknownVariant { path: path.to_owned(), expected: Expected::Level },
            ),
        },
        Some(_) => Err(wrong_type(path, Expected::Level)),
    }
}

fn decode_section<'a>(found: Option<&'a Value>, path: &str) -> (outcome: Result<
    &'a Vec<Entry>,
    SchemaError,
>)
    ensures
        match outcome {
            Ok(entries) => section_in(found_node(found), path@) == Ok::<Seq<Member>, SchemaFault>(
                members_of(entries@),
            ),
            Err(error) => section_in(found_node(found), path@) == Err::<Seq<Member>, SchemaFault>(
                error@,
            ),
        },
{
    match found {
        None => Err(missing(path)),
        Some(Value::Table(entries)) => Ok(entries),
        Some(_) => Err(wrong_type(path, Expected::Table)),
    }
}

fn decode_optional_section<'a>(found: Option<&'a Value>, path: &str) -> (outcome: Result<
    Option<&'a Vec<Entry>>,
    SchemaError,
>)
    ensures
        match outcome {
            Ok(Some(entries)) => optional_section_in(found_node(found), path@) == Ok::<
                Option<Seq<Member>>,
                SchemaFault,
            >(Some(members_of(entries@))),
            Ok(None) => optional_section_in(found_node(found), path@) == Ok::<
                Option<Seq<Member>>,
                SchemaFault,
            >(None),
            Err(error) => optional_section_in(found_node(found), path@) == Err::<
                Option<Seq<Member>>,
                SchemaFault,
            >(error@),
        },
{
    match found {
        None => Ok(None),
        Some(Value::Nil) => Ok(None),
        Some(Value::Table(entries)) => Ok(Some(entries)),
        Some(_) => Err(wrong_type(path, Expected::Table)),
    }
}

fn decode_server(section: &Vec<Entry>) -> (outcome: Result<ServerSettings, SchemaError>)
    ensures
        match outcome {
            Ok(server) => server_in(members_of(section@)) == Ok::<ServerModel, SchemaFault>(
                server@,
            ),
            Err(error) => server_in(members_of(section@)) == Err::<ServerModel, SchemaFault>(
                error@,
            ),
        },
{
    let port = decode_number(lookup(section, "port"), "server.port", Expected::Port, 65535)?;
    let danger_allow_http = decode_flag(
        lookup(section, "danger_allow_http"),
        "server.danger_allow_http",
    )?;
    let debug_no_access_control = decode_flag(
        lookup(section, "debug_no_access_control"),
        "server.debug_no_access_control",
    )?;
    let cors_origins = decode_text_list(lookup(section, "cors_origins"), "server.cors_origins")?;
    let base_dir = decode_optional_text(lookup(section, "base_dir"), "server.base_dir")?;
    let machine_uid = decode_optional_text(lookup(section, "machine_uid"), "server.machine_uid")?;
    Ok(
        ServerSettings {
            port: port as u16,
            danger_allow_http,
            debug_no_access_control,
            cors_origins,
            base_dir,
            machine_uid,
        },
    )
}

fn decode_sync(section: &Vec<Entry>) -> (outcome: Result<SyncSettings, SchemaError>)
    ensures
        match outcome {
            Ok(sync) => sync_in(members_of(section@)) == Ok::<SyncModel, SchemaFault>(sync@),
            Err(error) => sync_in(members_of(section@)) == Err::<SyncModel, SchemaFault>(error@),
        },
{
    let url = decode_text(lookup(section, "url"), "sync.url")?;
    let username = decode_text(lookup(section, "username"), "sync.username")?;
    let password_sha256 = decode_text(
        lookup(section, "password_sha256"),
        "sync.password_sha256",
    )?;
    Ok(SyncSettings { url, username, password_sha256 })
}

fn decode_logging(section: &Vec<Entry>) -> (outcome: Result<LoggingSettings, SchemaError>)
    ensures
        match outcome {
            Ok(logging) => logging_in(members_of(section@)) == Ok::<LoggingModel, SchemaFault>(
                logging@,
            ),
            Err(error) => logging_in(members_of(section@)) == Err::<LoggingModel, SchemaFault>(
                error@,
            ),
        },
{
    let mode = decode_log_mode(lookup(section, "mode"), "logging.mode")?;
    let level = decode_level(lookup(section, "level"), "logging.level")?;
    let directory = decode_optional_text(lookup(section, "directory"), "logging.directory")?;
    let filename = decode_optional_text(lookup(section, "filename"), "logging.filename")?;
    let count = decode_optional_number(
        lookup(section, "max_file_count"),
        "logging.max_file_count",
        Expected::Count,
        i64::MAX as i128,
    )?;
    let size = decode_optional_number(
        lookup(section, "max_file_size"),
        "logging.max_file_size",
        Expected::Size,
        usize::MAX as i128,
    )?;
    let max_file_count = match count {
        Some(count) => Some(count as i64),
        None => None,
    };
    let max_file_size = match size {
        Some(size) => Some(size as usize),
        None => None,
    };
    Ok(LoggingSettings { mode, level, directory, filename, max_file_count, max_file_size })
}

fn decode_settings(document: &Document) -> (outcome: Result<Settings, SchemaError>)
    ensures
        match outcome {
            Ok(settings) => settings_in(document@) == Ok::<SettingsModel, SchemaFault>(settings@),
            Err(error) => settings_in(document@) == Err::<SettingsModel, SchemaFault>(error@),
        },
{
    let server_section = decode_section(lookup(&document.entries, "server"), "server")?;
    let server = decode_server(server_section)?;
    let database_section = decode_section(lookup(&document.entries, "database"), "database")?;
    let database = DatabaseSettings { entries: duplicate_entries(database_section) };
    let sync = match decode_optional_section(lookup(&document.entries, "sync"), "sync")? {
        Some(section) => Some(decode_sync(section)?),
        None => None,
    };
    let logging = match decode_optional_section(lookup(&document.entries, "logging"), "logging")? {
        Some(section) => Some(decode_logging(section)?),
        None => None,
    };
    Ok(Settings { server, database, sync, logging })
}

/// Decodes a merged document into the typed settings tree.
pub fn materialize(document: &Document) -> (outcome: Result<Settings, SettingsError>)
    ensures
        materializes_to(document@, outcome),
{
    match decode_settings(document) {
        Ok(settings) => Ok(settings),
        Err(error) => Err(SettingsError::Config(error)),
    }
}

/// Materializing is a function of the document: whatever two runs on one
/// document give has the same content.
pub proof fn materializing_twice_gives_the_same(
    document: Seq<Member>,
    first: Result<Settings, SettingsError>,
    second: Result<Settings, SettingsError>,
)
    requires
        materializes_to(document, first),
        materializes_to(document, second),
    ensures
        match (first, second) {
            (Ok(one), Ok(other)) => one@ == other@,
            (Err(one), Err(other)) => one@ == other@,
            _ => false,
        },
{
}

/// A document whose server section decodes, with a database section and with
/// neither a sync nor a logging key, materializes, and to settings without the
/// two optional sections.
pub proof fn required_sections_alone_materialize(document: Seq<Member>)
    requires
        find(document, "server"@) matches Some(Node::Table(server)) && server_in(server) is Ok,
        find(document, "database"@) matches Some(Node::Table(_)),
        find(document, "sync"@) is None,
        find(document, "logging"@) is None,
    ensures
        materialized(document) matches Ok(settings) && settings.sync is None && settings.logging
            is None && settings.database == find(document, "database"@)->0->Table_0,
{
}

/// An optional section is absent from the settings exactly when its key is
/// missing or null. One that is there is decoded in full: where the document
/// materializes, the settings hold every section as its decoder gives it.
pub proof fn present_sections_are_decoded_in_full(document: Seq<Member>)
    requires
        materialized(document) is Ok,
    ensures
        ({
            let settings = materialized(document)->Ok_0;
            &&& find(document, "server"@) matches Some(Node::Table(section)) && server_in(section)
                == Ok::<ServerModel, SchemaFault>(settings.server)
            &&& find(document, "database"@) == Some(Node::Table(settings.database))
            &&& match find(document, "sync"@) {
                None => settings.sync is None,
                Some(Node::Nil) => settings.sync is None,
                Some(Node::Table(section)) => settings.sync is Some && sync_in(section) == Ok::<
                    SyncModel,
                    SchemaFault,
                >(settings.sync->0),
                Some(_) => false,
            }
            &&& match find(document, "logging"@) {
                None => settings.logging is None,
                Some(Node::Nil) => settings.logging is None,
                Some(Node::Table(section)) => settings.logging is Some && logging_in(section)
                    == Ok::<LoggingModel, SchemaFault>(settings.logging->0),
                Some(_) => false,
            }
        }),
{
}

} // verus!

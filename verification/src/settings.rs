//! The typed settings tree.
//!
//! The server and database sections are required. The sync and logging sections
//! are optional as a whole: a deployment that does not synchronize has no sync
//! section.

use vstd::prelude::*;
use vstd::string::*;

use crate::value::{members_of, Entry, Member};

verus! {

/// Where log output goes.
#[derive(Clone, Copy, Debug, PartialEq, Eq, Structural)]
pub enum LogMode {
    All,
    Console,
    File,
}

/// The least severity that is logged.
#[derive(Clone, Copy, Debug, PartialEq, Eq, Structural)]
pub enum Level {
    Error,
    Warn,
    Info,
    Debug,
    Trace,
}

#[derive(Clone, Debug, PartialEq, Eq)]
pub struct ServerSettings {
    pub port: u16,
    /// Allows the server to run over plain http.
    pub danger_allow_http: bool,
    /// Switches access control off; for development only.
    pub debug_no_access_control: bool,
    /// The origins from which cross-origin requests are allowed.
    pub cors_origins: Vec<String>,
    /// The directory where the server keeps its data.
    pub base_dir: Option<String>,
    /// Overrides the machine identifier.
    pub machine_uid: Option<String>,
}

/// The database section. Its fields belong to the database layer, which decodes
/// them; here the section is only required to be a mapping.
#[derive(Clone, Debug, PartialEq, Eq)]
pub struct DatabaseSettings {
    pub entries: Vec<Entry>,
}

#[derive(Clone, Debug, PartialEq, Eq)]
pub struct SyncSettings {
    pub url: String,
    pub username: String,
    pub password_sha256: String,
}

#[derive(Clone, Debug, PartialEq, Eq)]
pub struct LoggingSettings {
    pub mode: LogMode,
    pub level: Level,
    pub directory: Option<String>,
    pub filename: Option<String>,
    /// The number of log files to retain.
    pub max_file_count: Option<i64>,
    /// The size of a log file, in megabytes.
    pub max_file_size: Option<usize>,
}

#[derive(Clone, Debug, PartialEq, Eq)]
pub struct Settings {
    pub server: ServerSettings,
    pub database: DatabaseSettings,
    pub sync: Option<SyncSettings>,
    pub logging: Option<LoggingSettings>,
}

/// The mathematical content of [`ServerSettings`].
pub struct ServerModel {
    pub port: u16,
    pub danger_allow_http: bool,
    pub debug_no_access_control: bool,
    pub cors_origins: Seq<Seq<char>>,
    pub base_dir: Option<Seq<char>>,
    pub machine_uid: Option<Seq<char>>,
}

/// The mathematical content of [`SyncSettings`].
pub struct SyncModel {
    pub url: Seq<char>,
    pub username: Seq<char>,
    pub password_sha256: Seq<char>,
}

/// The mathematical content of [`LoggingSettings`].
pub struct LoggingModel {
    pub mode: LogMode,
    pub level: Level,
    pub directory: Option<Seq<char>>,
    pub filename: Option<Seq<char>>,
    pub max_file_count: Option<i64>,
    pub max_file_size: Option<usize>,
}

/// The mathematical content of [`Settings`].
pub struct SettingsModel {
    pub server: ServerModel,
    pub database: Seq<Member>,
    pub sync: Option<SyncModel>,
    pub logging: Option<LoggingModel>,
}

/// The content of an optional string.
pub open spec fn text_of(text: Option<String>) -> Option<Seq<char>> {
    match text {
        Some(text) => Some(text@),
        None => None,
    }
}

/// The content of a list of strings.
pub open spec fn texts_of(texts: Seq<String>) -> Seq<Seq<char>> {
    texts.map_values(|text: String| text@)
}

impl View for ServerSettings {
    type V = ServerModel;

    open spec fn view(&self) -> ServerModel {
        ServerModel {
            port: self.port,
            danger_allow_http: self.danger_allow_http,
            debug_no_access_control: self.debug_no_access_control,
            cors_origins: texts_of(self.cors_origins@),
            base_dir: text_of(self.base_dir),
            machine_uid: text_of(self.machine_uid),
        }
    }
}

impl View for DatabaseSettings {
    type V = Seq<Member>;

    open spec fn view(&self) -> Seq<Member> {
        members_of(self.entries@)
    }
}

impl View for SyncSettings {
    type V = SyncModel;

    open spec fn view(&self) -> SyncModel {
        SyncModel {
            url: self.url@,
            username: self.username@,
            password_sha256: self.password_sha256@,
        }
    }
}

impl View for LoggingSettings {
    type V = LoggingModel;

    open spec fn view(&self) -> LoggingModel {
        LoggingModel {
            mode: self.mode,
            level: self.level,
            directory: text_of(self.directory),
            filename: text_of(self.filename),
            max_file_count: self.max_file_count,
            max_file_size: self.max_file_size,
        }
    }
}

impl View for Settings {
    type V = SettingsModel;

    open spec fn view(&self) -> SettingsModel {
        SettingsModel {
            server: self.server@,
            database: self.database@,
            sync: match self.sync {
                Some(sync) => Some(sync@),
                None => None,
            },
            logging: match self.logging {
                Some(logging) => Some(logging@),
                None => None,
            },
        }
    }
}

impl LogMode {
    /// The mode that `text` names, if any. Names are matched exactly.
    pub open spec fn named(text: Seq<char>) -> Option<LogMode> {
        if text == "All"@ {
            Some(LogMode::All)
        } else if text == "Console"@ {
            Some(LogMode::Console)
        } else if text == "File"@ {
            Some(LogMode::File)
        } else {
            None
        }
    }

    /// The mode that `text` names, if any.
    pub fn parse(text: &str) -> (mode: Option<LogMode>)
        ensures
            mode == Self::named(text@),
    {
        let given = String::from_str(text);
        if given == String::from_str("All") {
            Some(LogMode::All)
        } else if given == String::from_str("Console") {
            Some(LogMode::Console)
        } else if given == String::from_str("File") {
            Some(LogMode::File)
        } else {
            None
        }
    }
}

impl Level {
    /// The level that `text` names, if any. Names are matched exactly.
    pub open spec fn named(text: Seq<char>) -> Option<Level> {
        if text == "Error"@ {
            Some(Level::Error)
        } else if text == "Warn"@ {
            Some(Level::Warn)
        } else if text == "Info"@ {
            Some(Level::Info)
        } else if text == "Debug"@ {
            Some(Level::Debug)
        } else if text == "Trace"@ {
            Some(Level::Trace)
        } else {
            None
        }
    }

    /// The level that `text` names, if any.
    pub fn parse(text: &str) -> (level: Option<Level>)
        ensures
            level == Self::named(text@),
    {
        let given = String::from_str(text);
        if given == String::from_str("Error") {
            Some(Level::Error)
        } else if given == String::from_str("Warn") {
            Some(Level::Warn)
        } else if given == String::from_str("Info") {
            Some(Level::Info)
        } else if given == String::from_str("Debug") {
            Some(Level::Debug)
        } else if given == String::from_str("Trace") {
            Some(Level::Trace)
        } else {
            None
        }
    }
}

} // verus!

//! The failure taxonomy: one error type with three kinds, each carrying its cause.

use vstd::prelude::*;
use vstd::string::*;

use crate::value::Kind;

verus! {

/// The kind of a failure, without its cause.
#[derive(Clone, Copy, Debug, PartialEq, Eq, Structural)]
pub enum ErrorKind {
    /// A source is malformed, or the merged configuration does not fit the schema.
    Config,
    /// The environment-selection variable is set to something unusable.
    Environment,
    /// A source or the working directory could not be read.
    File,
}

/// The type that a settings field must have.
#[derive(Clone, Copy, Debug, PartialEq, Eq, Structural)]
pub enum Expected {
    /// `true` or `false`.
    Boolean,
    /// An integer from 0 to 65535.
    Port,
    /// An integer from 0 to the largest `i64`.
    Count,
    /// An integer from 0 to the largest `usize`.
    Size,
    /// A string.
    Text,
    /// A list whose items are all strings.
    TextList,
    /// A nested mapping.
    Table,
    /// One of the names of `LogMode`.
    LogMode,
    /// One of the names of `Level`.
    Level,
}

impl Expected {
    /// The name of the type as it appears in messages.
    pub open spec fn name_text(self) -> Seq<char> {
        match self {
            Expected::Boolean => "a boolean"@,
            Expected::Port => "an integer from 0 to 65535"@,
            Expected::Count => "a non-negative 64-bit integer"@,
            Expected::Size => "a non-negative integer that fits the machine word"@,
            Expected::Text => "a string"@,
            Expected::TextList => "a list of strings"@,
            Expected::Table => "a mapping"@,
            Expected::LogMode => "one of All, Console, File"@,
            Expected::Level => "one of Error, Warn, Info, Debug, Trace"@,
        }
    }

    /// The name as it appears in messages.
    pub fn name(&self) -> (text: &'static str)
        ensures
            text@ == self.name_text(),
    {
        match self {
            Expected::Boolean => "a boolean",
            Expected::Port => "an integer from 0 to 65535",
            Expected::Count => "a non-negative 64-bit integer",
            Expected::Size => "a non-negative integer that fits the machine word",
            Expected::Text => "a string",
            Expected::TextList => "a list of strings",
            Expected::Table => "a mapping",
            Expected::LogMode => "one of All, Console, File",
            Expected::Level => "one of Error, Warn, Info, Debug, Trace",
        }
    }
}

/// Why a source or the merged configuration was rejected.
#[derive(Clone, Debug, PartialEq, Eq)]
pub enum SchemaError {
    /// The source at `source` is not a well-formed document. `message` is the
    /// text of the parser's error.
    Syntax { source: String, message: String },
    /// A required field is absent. `path` is its dotted path from the root.
    MissingField { path: String },
    /// A field holds a value of another type, or a number out of range.
    TypeMismatch { path: String, expected: Expected },
    /// An enumerated field holds a name outside its closed set.
    UnknownVariant { path: String, expected: Expected },
    /// Base and overlay give the same key values of different scalar types.
    Conflict { path: String, expected_kind: Kind, found_kind: Kind },
}

/// The mathematical content of a [`SchemaError`].
pub enum SchemaFault {
    Syntax { source: Seq<char>, message: Seq<char> },
    MissingField { path: Seq<char> },
    TypeMismatch { path: Seq<char>, expected: Expected },
    UnknownVariant { path: Seq<char>, expected: Expected },
    Conflict { path: Seq<char>, expected_kind: Kind, found_kind: Kind },
}

impl View for SchemaError {
    type V = SchemaFault;

    open spec fn view(&self) -> SchemaFault {
        match self {
            SchemaError::Syntax { source, message } => SchemaFault::Syntax {
                source: source@,
                message: message@,
            },
            SchemaError::MissingField { path } => SchemaFault::MissingField { path: path@ },
            SchemaError::TypeMismatch { path, expected } => SchemaFault::TypeMismatch {
                path: path@,
                expected: *expected,
            },
            SchemaError::UnknownVariant { path, expected } => SchemaFault::UnknownVariant {
                path: path@,
                expected: *expected,
            },
            SchemaError::Conflict { path, expected_kind, found_kind } => SchemaFault::Conflict {
                path: path@,
                expected_kind: *expected_kind,
                found_kind: *found_kind,
            },
        }
    }
}

impl SchemaFault {
    /// The text shown for this fault. A fault of the parser is shown as the
    /// parser's own text, with nothing added.
    pub open spec fn message_text(self) -> Seq<char> {
        match self {
            SchemaFault::Syntax { message, .. } => message,
            SchemaFault::MissingField { path } => "missing field `"@ + path + "`"@,
            SchemaFault::TypeMismatch { path, expected } => "invalid type for `"@ + path
                + "`: expected "@ + expected.name_text(),
            SchemaFault::UnknownVariant { path, expected } => "unknown variant for `"@ + path
                + "`: expected "@ + expected.name_text(),
            SchemaFault::Conflict { path, expected_kind, found_kind } => "conflicting types for `"@
                + path + "`: the base holds "@ + expected_kind.name_text() + ", the overlay "@
                + found_kind.name_text(),
        }
    }
}

impl SchemaError {
    /// The text to show for this error.
    pub fn message(&self) -> (text: String)
        ensures
            text@ == self@.message_text(),
    {
        match self {
            SchemaError::Syntax { message, .. } => message.clone(),
            SchemaError::MissingField { path } => {
                let mut text = String::from_str("missing field `");
                text.append(path.as_str());
                text.append("`");
                text
            },
            SchemaError::TypeMismatch { path, expected } => {
                let mut text = String::from_str("invalid type for `");
                text.append(path.as_str());
                text.append("`: expected ");
                text.append(expected.name());
                text
            },
            SchemaError::UnknownVariant { path, expected } => {
                let mut text = String::from_str("unknown variant for `");
                text.append(path.as_str());
                text.append("`: expected ");
                text.append(expected.name());
                text
            },
            SchemaError::Conflict { path, expected_kind, found_kind } => {
                let mut text = String::from_str("conflicting types for `");
                text.append(path.as_str());
                text.append("`: the base holds ");
                text.append(expected_kind.name());
                text.append(", the overlay ");
                text.append(found_kind.name());
                text
            },
        }
    }
}

/// Why the environment-selection variable could not be used.
#[derive(Clone, Debug, PartialEq, Eq)]
pub enum EnvironmentError {
    /// The variable is set, but its value is not valid unicode. `cause` is the
    /// text of the system's error.
    NotUnicode { cause: String },
    /// The variable is set to a name outside the closed set of environments.
    Unrecognized { value: String },
}

/// The mathematical content of an [`EnvironmentError`].
pub enum EnvironmentFault {
    NotUnicode { cause: Seq<char> },
    Unrecognized { value: Seq<char> },
}

impl View for EnvironmentError {
    type V = EnvironmentFault;

    open spec fn view(&self) -> EnvironmentFault {
        match self {
            EnvironmentError::NotUnicode { cause } => EnvironmentFault::NotUnicode {
                cause: cause@,
            },
            EnvironmentError::Unrecognized { value } => EnvironmentFault::Unrecognized {
                value: value@,
            },
        }
    }
}

impl EnvironmentFault {
    /// The text shown for this fault. A fault of the system is shown as the
    /// system's own text, with nothing added.
    pub open spec fn message_text(self) -> Seq<char> {
        match self {
            EnvironmentFault::NotUnicode { cause } => cause,
            EnvironmentFault::Unrecognized { value } => "unrecognized environment `"@ + value
                + "`"@,
        }
    }
}

impl EnvironmentError {
    /// The text to show for this error.
    pub fn message(&self) -> (text: String)
        ensures
            text@ == self@.message_text(),
    {
        match self {
            EnvironmentError::NotUnicode { cause } => cause.clone(),
            EnvironmentError::Unrecognized { value } => {
                let mut text = String::from_str("unrecognized environment `");
                text.append(value.as_str());
                text.append("`");
                text
            },
        }
    }
}

/// Why a read from the file system failed. `cause` is the text of the system's error.
#[derive(Clone, Debug, PartialEq, Eq)]
pub enum FileError {
    /// The working directory could not be determined.
    WorkingDirectory { cause: String },
    /// The source at `path` does not exist or cannot be read.
    Source { path: String, cause: String },
}

/// The mathematical content of a [`FileError`].
pub enum FileFault {
    WorkingDirectory { cause: Seq<char> },
    Source { path: Seq<char>, cause: Seq<char> },
}

impl View for FileError {
    type V = FileFault;

    open spec fn view(&self) -> FileFault {
        match self {
            FileError::WorkingDirectory { cause } => FileFault::WorkingDirectory { cause: cause@ },
            FileError::Source { path, cause } => FileFault::Source { path: path@, cause: cause@ },
        }
    }
}

impl FileFault {
    /// The text shown for this fault: the system's own text, with nothing added.
    pub open spec fn message_text(self) -> Seq<char> {
        match self {
            FileFault::WorkingDirectory { cause } => cause,
            FileFault::Source { cause, .. } => cause,
        }
    }
}

impl FileError {
    /// The text to show for this error.
    pub fn message(&self) -> (text: String)
        ensures
            text@ == self@.message_text(),
    {
        match self {
            FileError::WorkingDirectory { cause } => cause.clone(),
            FileError::Source { cause, .. } => cause.clone(),
        }
    }
}

/// Any failure of a resolution, tagged by its kind.
#[derive(Clone, Debug, PartialEq, Eq)]
pub enum SettingsError {
    Config(SchemaError),
    Environment(EnvironmentError),
    File(FileError),
}

/// The mathematical content of a [`SettingsError`].
pub enum SettingsFault {
    Config(SchemaFault),
    Environment(EnvironmentFault),
    File(FileFault),
}

impl View for SettingsError {
    type V = SettingsFault;

    open spec fn view(&self) -> SettingsFault {
        match self {
            SettingsError::Config(cause) => SettingsFault::Config(cause@),
            SettingsError::Environment(cause) => SettingsFault::Environment(cause@),
            SettingsError::File(cause) => SettingsFault::File(cause@),
        }
    }
}

impl SettingsFault {
    /// The kind is the tag alone.
    pub open spec fn kind(self) -> ErrorKind {
        match self {
            SettingsFault::Config(_) => ErrorKind::Config,
            SettingsFault::Environment(_) => ErrorKind::Environment,
            SettingsFault::File(_) => ErrorKind::File,
        }
    }

    /// The display text is that of the cause.
    pub open spec fn message_text(self) -> Seq<char> {
        match self {
            SettingsFault::Config(cause) => cause.message_text(),
            SettingsFault::Environment(cause) => cause.message_text(),
            SettingsFault::File(cause) => cause.message_text(),
        }
    }
}

impl SettingsError {
    /// The kind of this error.
    pub fn kind(&self) -> (kind: ErrorKind)
        ensures
            kind == self@.kind(),
    {
        match self {
            SettingsError::Config(_) => ErrorKind::Config,
            SettingsError::Environment(_) => ErrorKind::Environment,
            SettingsError::File(_) => ErrorKind::File,
        }
    }

    /// The text to show for this error.
    pub fn message(&self) -> (text: String)
        ensures
            text@ == self@.message_text(),
    {
        match self {
            SettingsError::Config(cause) => cause.message(),
            SettingsError::Environment(cause) => cause.message(),
            SettingsError::File(cause) => cause.message(),
        }
    }
}

impl From<SchemaError> for SettingsError {
    fn from(cause: SchemaError) -> (error: SettingsError) {
        SettingsError::Config(cause)
    }
}

impl vstd::std_specs::convert::FromSpecImpl<SchemaError> for SettingsError {
    open spec fn obeys_from_spec() -> bool {
        true
    }

    open spec fn from_spec(cause: SchemaError) -> SettingsError {
        SettingsError::Config(cause)
    }
}

impl From<EnvironmentError> for SettingsError {
    fn from(cause: EnvironmentError) -> (error: SettingsError) {
        SettingsError::Environment(cause)
    }
}

impl vstd::std_specs::convert::FromSpecImpl<EnvironmentError> for SettingsError {
    open spec fn obeys_from_spec() -> bool {
        true
    }

    open spec fn from_spec(cause: EnvironmentError) -> SettingsError {
        SettingsError::Environment(cause)
    }
}

impl From<FileError> for SettingsError {
    fn from(cause: FileError) -> (error: SettingsError) {
        SettingsError::File(cause)
    }
}

impl vstd::std_specs::convert::FromSpecImpl<FileError> for SettingsError {
    open spec fn obeys_from_spec() -> bool {
        true
    }

    open spec fn from_spec(cause: FileError) -> SettingsError {
        SettingsError::File(cause)
    }
}

} // verus!

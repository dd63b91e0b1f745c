//! Where the sources lie, how they are loaded, and the resolution as a whole.
//!
//! Nothing here touches the process or the file system. The caller looks up the
//! environment variable and the working directory, reads and parses the two
//! sources, and hands over what each of these gave.

use vstd::prelude::*;
use vstd::string::*;

use crate::environment::{AppEnvironment, EnvironmentLookup};
use crate::error::{
    ErrorKind, FileError, FileFault, SchemaError, SchemaFault, SettingsError, SettingsFault,
};
use crate::materialize::{materialize, materialized};
use crate::merge::{merge, merged};
use crate::settings::{Settings, SettingsModel};
use crate::value::{Document, Member};

verus! {

/// What asking for the working directory gave.
#[derive(Clone, Debug, PartialEq, Eq)]
pub enum DirectoryLookup {
    /// The path of the working directory.
    Found(String),
    /// There is none to be had; `cause` is the text of the system's error.
    Failed { cause: String },
}

/// What reading and parsing one source gave.
#[derive(Clone, Debug, PartialEq, Eq)]
pub enum SourceRead {
    /// The file does not exist or cannot be read; `cause` is the text of the
    /// system's error.
    Unreadable { cause: String },
    /// The file was read, but its text is not a well-formed document.
    Malformed { message: String },
    /// The document that the file holds.
    Parsed(Document),
}

/// A source of configuration: a file at a known path.
#[derive(Clone, Debug, PartialEq, Eq)]
pub struct SourceFile {
    pub path: String,
}

impl View for SourceFile {
    type V = Seq<char>;

    open spec fn view(&self) -> Seq<char> {
        self.path@
    }
}

/// `name` inside `directory`. The two are joined by one `/`, which is left out
/// where the directory is empty or ends in one already.
pub open spec fn joined(directory: Seq<char>, name: Seq<char>) -> Seq<char> {
    if directory.len() == 0 {
        name
    } else if directory.last() == '/' {
        directory + name
    } else {
        directory + "/"@ + name
    }
}

/// The directory that holds the sources, inside the working directory.
pub open spec fn directory_path(working_directory: Seq<char>) -> Seq<char> {
    joined(working_directory, "configuration"@)
}

/// The path of the base source.
pub open spec fn base_file_path(configuration_directory: Seq<char>) -> Seq<char> {
    joined(configuration_directory, "base.yaml"@)
}

/// The path of the overlay source of an environment.
pub open spec fn app_file_path(
    configuration_directory: Seq<char>,
    environment: AppEnvironment,
) -> Seq<char> {
    joined(configuration_directory, environment.name_text() + ".yaml"@)
}

/// The directory of the sources, or a failure of the file kind where the working
/// directory could not be had.
pub open spec fn located(working_directory: DirectoryLookup) -> Result<Seq<char>, SettingsFault> {
    match working_directory {
        DirectoryLookup::Found(path) => Ok(directory_path(path@)),
        DirectoryLookup::Failed { cause } => Err(
            SettingsFault::File(FileFault::WorkingDirectory { cause: cause@ }),
        ),
    }
}

/// The document of one source: a failure of the file kind where the file could
/// not be read, and of the config kind where its text is malformed.
pub open spec fn sourced(path: Seq<char>, read: SourceRead) -> Result<Seq<Member>, SettingsFault> {
    match read {
        SourceRead::Unreadable { cause } => Err(
            SettingsFault::File(FileFault::Source { path, cause: cause@ }),
        ),
        SourceRead::Malformed { message } => Err(
            SettingsFault::Config(SchemaFault::Syntax { source: path, message: message@ }),
        ),
        SourceRead::Parsed(document) => Ok(document@),
    }
}

/// The merged configuration of two sources. A failure of the base comes before
/// one of the overlay, and both before a conflict between the two.
pub open spec fn loaded(
    base_path: Seq<char>,
    base: SourceRead,
    overlay_path: Seq<char>,
    overlay: SourceRead,
) -> Result<Seq<Member>, SettingsFault> {
    match sourced(base_path, base) {
        Err(fault) => Err(fault),
        Ok(below) => match sourced(overlay_path, overlay) {
            Err(fault) => Err(fault),
            Ok(above) => merged(below, above),
        },
    }
}

/// The outcome of a whole resolution. The environment is resolved first, then
/// the sources are located, loaded and merged, and the result is materialized;
/// the first step that fails gives the failure.
pub open spec fn configured(
    environment: EnvironmentLookup,
    working_directory: DirectoryLookup,
    base: SourceRead,
    overlay: SourceRead,
) -> Result<SettingsModel, SettingsFault> {
    match AppEnvironment::resolved(environment) {
        Err(fault) => Err(fault),
        Ok(selected) => match located(working_directory) {
            Err(fault) => Err(fault),
            Ok(directory) => match loaded(
                base_file_path(directory),
                base,
                app_file_path(directory, selected),
                overlay,
            ) {
                Err(fault) => Err(fault),
                Ok(document) => materialized(document),
            },
        },
    }
}

/// An unset variable resolves as the fallback environment's own name does: the
/// same overlay path is loaded and the same outcome comes back.
pub proof fn unset_environment_selects_the_fallback(
    named: EnvironmentLookup,
    working_directory: DirectoryLookup,
    base: SourceRead,
    overlay: SourceRead,
)
    requires
        named matches EnvironmentLookup::Value(text) && text@
            == AppEnvironment::fallback().name_text(),
    ensures
        AppEnvironment::resolved(EnvironmentLookup::Unset) == Ok::<AppEnvironment, SettingsFault>(
            AppEnvironment::fallback(),
        ),
        configured(EnvironmentLookup::Unset, working_directory, base, overlay) == configured(
            named,
            working_directory,
            base,
            overlay,
        ),
{
}

/// A variable that selects no environment fails the resolution with a failure
/// of the environment kind, whatever the working directory and the sources are:
/// nothing needs to be read to know the outcome.
pub proof fn bad_environment_fails_before_any_read(
    environment: EnvironmentLookup,
    working_directory: DirectoryLookup,
    base: SourceRead,
    overlay: SourceRead,
)
    requires
        AppEnvironment::resolved(environment) is Err,
    ensures
        configured(environment, working_directory, base, overlay) == Err::<
            SettingsModel,
            SettingsFault,
        >(AppEnvironment::resolved(environment)->Err_0),
        AppEnvironment::resolved(environment)->Err_0.kind() == ErrorKind::Environment,
{
}

/// There is no partial success: a resolution gives settings only if both
/// sources were read and parsed, and then they are those of the merged document.
pub proof fn settings_come_from_both_sources(
    environment: EnvironmentLookup,
    working_directory: DirectoryLookup,
    base: SourceRead,
    overlay: SourceRead,
)
    requires
        configured(environment, working_directory, base, overlay) is Ok,
    ensures
        base matches SourceRead::Parsed(below) && overlay matches SourceRead::Parsed(above)
            && merged(below@, above@) matches Ok(document) && configured(
            environment,
            working_directory,
            base,
            overlay,
        ) == materialized(document),
{
}

/// Each cause of a failed load has its kind: an unreadable source the file kind,
/// a malformed source or a conflict the config kind.
pub proof fn load_failures_have_their_kind(
    base_path: Seq<char>,
    base: SourceRead,
    overlay_path: Seq<char>,
    overlay: SourceRead,
)
    ensures
        match loaded(base_path, base, overlay_path, overlay) {
            Ok(_) => base is Parsed && overlay is Parsed,
            Err(fault) => if base is Unreadable || (base is Parsed && overlay is Unreadable) {
                fault.kind() == ErrorKind::File
            } else {
                fault.kind() == ErrorKind::Config
            },
        },
{
}

fn join(directory: &str, name: &str) -> (path: String)
    ensures
        path@ == joined(directory@, name@),
{
    let length = directory.unicode_len();
    let mut path = directory.to_owned();
    if length == 0 {
        assert(path@ + name@ =~= name@);
    } else if directory.get_char(length - 1) != '/' {
        path.append("/");
    }
    path.append(name);
    path
}

/// Gets the directory that stores the configuration files.
///
/// All configuration files are stored in the same directory.
pub fn get_configuration_directory(working_directory: DirectoryLookup) -> (outcome: Result<
    String,
    SettingsError,
>)
    ensures
        match outcome {
            Ok(directory) => located(working_directory) == Ok::<Seq<char>, SettingsFault>(
                directory@,
            ),
            Err(error) => located(working_directory) == Err::<Seq<char>, SettingsFault>(error@),
        },
{
    match working_directory {
        DirectoryLookup::Found(path) => Ok(join(path.as_str(), "configuration")),
        DirectoryLookup::Failed { cause } => Err(
            SettingsError::File(FileError::WorkingDirectory { cause }),
        ),
    }
}

/// Gets the path of the base configuration file.
///
/// The base configuration file stores the properties that all environments share.
pub fn get_configuration_base_file_path(configuration_directory: String) -> (path: String)
    ensures
        path@ == base_file_path(configuration_directory@),
{
    join(configuration_directory.as_str(), "base.yaml")
}

/// Gets the path of the application configuration file.
///
/// The application configuration file stores the properties of one environment.
pub fn get_configuration_app_file_path(
    configuration_directory: String,
    environment: AppEnvironment,
) -> (path: String)
    ensures
        path@ == app_file_path(configuration_directory@, environment),
{
    let mut name = String::from_str(environment.name());
    name.append(".yaml");
    join(configuration_directory.as_str(), name.as_str())
}

/// Gets the base configuration file.
pub fn get_configuration_base_file(working_directory: DirectoryLookup) -> (outcome: Result<
    SourceFile,
    SettingsError,
>)
    ensures
        match outcome {
            Ok(file) => located(working_directory) matches Ok(directory) && file@
                == base_file_path(directory),
            Err(error) => located(working_directory) == Err::<Seq<char>, SettingsFault>(error@),
        },
{
    let directory = get_configuration_directory(working_directory)?;
    Ok(SourceFile { path: get_configuration_base_file_path(directory) })
}

/// Gets the application configuration file of `environment`.
pub fn get_configuration_app_file(
    working_directory: DirectoryLookup,
    environment: AppEnvironment,
) -> (outcome: Result<SourceFile, SettingsError>)
    ensures
        match outcome {
            Ok(file) => located(working_directory) matches Ok(directory) && file@
                == app_file_path(directory, environment),
            Err(error) => located(working_directory) == Err::<Seq<char>, SettingsFault>(error@),
        },
{
    let directory = get_configuration_directory(working_directory)?;
    Ok(SourceFile { path: get_configuration_app_file_path(directory, environment) })
}

/// Takes the document out of what reading the source at `path` gave.
pub fn source_document(path: &str, read: SourceRead) -> (outcome: Result<Document, SettingsError>)
    ensures
        match outcome {
            Ok(document) => sourced(path@, read) == Ok::<Seq<Member>, SettingsFault>(document@),
            Err(error) => sourced(path@, read) == Err::<Seq<Member>, SettingsFault>(error@),
        },
{
    match read {
        SourceRead::Unreadable { cause } => Err(
            SettingsError::File(FileError::Source { path: path.to_owned(), cause }),
        ),
        SourceRead::Malformed { message } => Err(
            SettingsError::Config(SchemaError::Syntax { source: path.to_owned(), message }),
        ),
        SourceRead::Parsed(document) => Ok(document),
    }
}

/// Loads the base and the overlay into one merged configuration.
pub fn load(base_path: &str, base: SourceRead, overlay_path: &str, overlay: SourceRead) -> (outcome:
    Result<Document, SettingsError>)
    ensures
        match outcome {
            Ok(document) => loaded(base_path@, base, overlay_path@, overlay) == Ok::<
                Seq<Member>,
                SettingsFault,
            >(document@),
            Err(error) => loaded(base_path@, base, overlay_path@, overlay) == Err::<
                Seq<Member>,
                SettingsFault,
            >(error@),
        },
{
    let below = source_document(base_path, base)?;
    let above = source_document(overlay_path, overlay)?;
    merge(&below, &above)
}

/// Gets the app configuration.
///
/// The configuration is that of the base file with the file of the selected
/// environment applied on top, decoded into the settings tree.
pub fn get_configuration(
    environment: EnvironmentLookup,
    working_directory: DirectoryLookup,
    base: SourceRead,
    overlay: SourceRead,
) -> (outcome: Result<Settings, SettingsError>)
    ensures
        match outcome {
            Ok(settings) => configured(environment, working_directory, base, overlay) == Ok::<
                SettingsModel,
                SettingsFault,
            >(settings@),
            Err(error) => configured(environment, working_directory, base, overlay) == Err::<
                SettingsModel,
                SettingsFault,
            >(error@),
        },
{
    let selected = AppEnvironment::resolve(environment)?;
    let directory = get_configuration_directory(working_directory)?;
    let base_path = get_configuration_base_file_path(directory.clone());
    let overlay_path = get_configuration_app_file_path(directory, selected);
    let document = load(base_path.as_str(), base, overlay_path.as_str(), overlay)?;
    materialize(&document)
}

} // verus!

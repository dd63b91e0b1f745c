use oms_check::configuration::{
    get_configuration, get_configuration_app_file_path, DirectoryLookup, SourceRead,
};
use oms_check::environment::{AppEnvironment, EnvironmentLookup};
use oms_check::error::{EnvironmentError, ErrorKind, SettingsError};

#[test]
fn unset_variable_falls_back_to_local() {
    assert_eq!(AppEnvironment::resolve(EnvironmentLookup::Unset), Ok(AppEnvironment::Local));
    assert_eq!(AppEnvironment::default(), AppEnvironment::Local);
}

#[test]
fn unset_variable_selects_the_local_overlay() {
    let environment = AppEnvironment::resolve(EnvironmentLookup::Unset).unwrap();
    let path = get_configuration_app_file_path("/srv/app/configuration".to_string(), environment);
    assert_eq!(path, "/srv/app/configuration/local.yaml");
}

#[test]
fn recognized_names_resolve_to_their_environment() {
    assert_eq!(
        AppEnvironment::resolve(EnvironmentLookup::Value("local".to_string())),
        Ok(AppEnvironment::Local)
    );
    assert_eq!(
        AppEnvironment::resolve(EnvironmentLookup::Value("production".to_string())),
        Ok(AppEnvironment::Production)
    );
}

#[test]
fn unrecognized_value_is_an_environment_failure() {
    let outcome = AppEnvironment::resolve(EnvironmentLookup::Value("staging".to_string()));
    assert_eq!(
        outcome,
        Err(SettingsError::Environment(EnvironmentError::Unrecognized {
            value: "staging".to_string()
        }))
    );
    assert_eq!(outcome.unwrap_err().kind(), ErrorKind::Environment);
}

#[test]
fn unrecognized_value_fails_whatever_the_sources_hold() {
    let unreadable = || SourceRead::Unreadable { cause: "No such file or directory".to_string() };
    let outcome = get_configuration(
        EnvironmentLookup::Value("staging".to_string()),
        DirectoryLookup::Failed { cause: "gone".to_string() },
        unreadable(),
        unreadable(),
    );
    assert_eq!(
        outcome,
        Err(SettingsError::Environment(EnvironmentError::Unrecognized {
            value: "staging".to_string()
        }))
    );
}

#[test]
fn value_that_is_not_unicode_is_an_environment_failure() {
    let cause = "environment variable was not valid unicode: \"\\xFF\"".to_string();
    let outcome = AppEnvironment::resolve(EnvironmentLookup::NotUnicode { cause: cause.clone() });
    assert_eq!(
        outcome,
        Err(SettingsError::Environment(EnvironmentError::NotUnicode { cause: cause.clone() }))
    );
    assert_eq!(outcome.clone().unwrap_err().message(), cause);
    assert_eq!(outcome.unwrap_err().kind(), ErrorKind::Environment);
}

#[test]
fn names_are_matched_exactly() {
    assert_eq!(AppEnvironment::parse("local"), Some(AppEnvironment::Local));
    assert_eq!(AppEnvironment::parse("production"), Some(AppEnvironment::Production));
    assert_eq!(AppEnvironment::parse("Local"), None);
    assert_eq!(AppEnvironment::parse("PRODUCTION"), None);
    assert_eq!(AppEnvironment::parse(" local"), None);
    assert_eq!(AppEnvironment::parse(""), None);
    assert_eq!(AppEnvironment::parse("staging"), None);
}

#[test]
fn every_environment_is_named_by_its_own_name() {
    for environment in [AppEnvironment::Local, AppEnvironment::Production] {
        assert_eq!(AppEnvironment::parse(environment.name()), Some(environment));
    }
    assert_eq!(AppEnvironment::Local.name(), "local");
    assert_eq!(AppEnvironment::Production.name(), "production");
}

#[test]
fn empty_value_is_unrecognized_not_unset() {
    let outcome = AppEnvironment::resolve(EnvironmentLookup::Value(String::new()));
    assert_eq!(
        outcome,
        Err(SettingsError::Environment(EnvironmentError::Unrecognized { value: String::new() }))
    );
}

//! The environment resolver: which named environment the process runs under.

use vstd::prelude::*;
use vstd::string::*;

use crate::error::{EnvironmentError, EnvironmentFault, SettingsError, SettingsFault};

verus! {

/// The closed set of environments. Each selects one overlay source.
#[derive(Clone, Copy, Debug, PartialEq, Eq, Structural)]
pub enum AppEnvironment {
    Local,
    Production,
}

/// What reading the environment-selection variable gave.
#[derive(Clone, Debug, PartialEq, Eq)]
pub enum EnvironmentLookup {
    /// The variable is not set.
    Unset,
    /// The variable is set, but its value is not valid unicode. `cause` is the
    /// text of the system's error.
    NotUnicode { cause: String },
    /// The variable is set to this text.
    Value(String),
}

impl AppEnvironment {
    /// The environment's name, which is also the stem of its overlay file.
    pub open spec fn name_text(self) -> Seq<char> {
        match self {
            AppEnvironment::Local => "local"@,
            AppEnvironment::Production => "production"@,
        }
    }

    /// The environment that `text` names, if any. Names are matched exactly.
    pub open spec fn named(text: Seq<char>) -> Option<AppEnvironment> {
        if text == "local"@ {
            Some(AppEnvironment::Local)
        } else if text == "production"@ {
            Some(AppEnvironment::Production)
        } else {
            None
        }
    }

    /// The environment to fall back to when none is selected.
    pub open spec fn fallback() -> AppEnvironment {
        AppEnvironment::Local
    }

    /// What a lookup resolves to: the fallback when the variable is unset, the
    /// named environment when it names one, and a failure otherwise.
    pub open spec fn resolved(lookup: EnvironmentLookup) -> Result<
        AppEnvironment,
        SettingsFault,
    > {
        match lookup {
            EnvironmentLookup::Unset => Ok(Self::fallback()),
            EnvironmentLookup::NotUnicode { cause } => Err(
                SettingsFault::Environment(EnvironmentFault::NotUnicode { cause: cause@ }),
            ),
            EnvironmentLookup::Value(text) => match Self::named(text@) {
                Some(environment) => Ok(environment),
                None => Err(
                    SettingsFault::Environment(EnvironmentFault::Unrecognized { value: text@ }),
                ),
            },
        }
    }

    /// The environment's name.
    pub fn name(&self) -> (text: &'static str)
        ensures
            text@ == self.name_text(),
    {
        match self {
            AppEnvironment::Local => "local",
            AppEnvironment::Production => "production",
        }
    }

    /// The environment that `text` names, if any.
    pub fn parse(text: &str) -> (environment: Option<AppEnvironment>)
        ensures
            environment == Self::named(text@),
    {
        let given = String::from_str(text);
        if given == String::from_str("local") {
            Some(AppEnvironment::Local)
        } else if given == String::from_str("production") {
            Some(AppEnvironment::Production)
        } else {
            None
        }
    }

    /// Resolves the environment from what reading the variable gave.
    pub fn resolve(lookup: EnvironmentLookup) -> (outcome: Result<AppEnvironment, SettingsError>)
        ensures
            match outcome {
                Ok(environment) => Self::resolved(lookup) == Ok::<AppEnvironment, SettingsFault>(
                    environment,
                ),
                Err(error) => Self::resolved(lookup) == Err::<AppEnvironment, SettingsFault>(
                    error@,
                ),
            },
    {
        match lookup {
            EnvironmentLookup::Unset => Ok(AppEnvironment::Local),
            EnvironmentLookup::NotUnicode { cause } => Err(
                SettingsError::Environment(EnvironmentError::NotUnicode { cause }),
            ),
            EnvironmentLookup::Value(text) => match Self::parse(text.as_str()) {
                Some(environment) => Ok(environment),
                None => Err(
                    SettingsError::Environment(EnvironmentError::Unrecognized { value: text }),
                ),
            },
        }
    }
}

impl Default for AppEnvironment {
    fn default() -> (environment: AppEnvironment)
        ensures
            environment == AppEnvironment::fallback(),
    {
        AppEnvironment::Local
    }
}

/// Every environment is named by its own name, and by no other's.
pub proof fn name_selects_its_environment(environment: AppEnvironment)
    ensures
        AppEnvironment::named(environment.name_text()) == Some(environment),
{
    reveal_strlit("local");
    reveal_strlit("production");
    assert("local"@.len() != "production"@.len());
}

/// A resolution fails exactly when the variable is set to something that names
/// no environment, and every such failure is of the environment kind.
pub proof fn resolution_fails_only_on_bad_value(lookup: EnvironmentLookup)
    ensures
        AppEnvironment::resolved(lookup) is Err <==> (lookup is NotUnicode || (lookup matches EnvironmentLookup::Value(text)
            && AppEnvironment::named(text@) is None)),
        AppEnvironment::resolved(lookup) matches Err(fault) ==> fault is Environment,
{
}

} // verus!

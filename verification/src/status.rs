//! The state of the environment check: what was configured, and how each of its
//! two tests went.
//!
//! The window only draws this state. Every change to it is made here, from the
//! outcome of a resolution or of a connection attempt.

use vstd::prelude::*;
use vstd::string::*;

use crate::error::{SettingsError, SettingsFault};
use crate::settings::{Settings, SettingsModel};

verus! {

/// How a test ended.
#[derive(Clone, Debug, PartialEq, Eq)]
pub struct TestResult {
    pub success: bool,
    /// The text of the failure; empty after a success.
    pub error: String,
}

/// One test of the check, with its result once it has run.
#[derive(Clone, Debug, PartialEq, Eq)]
pub struct Test {
    pub label: &'static str,
    pub result: Option<TestResult>,
}

/// The sign that stands beside a test.
#[derive(Clone, Copy, Debug, PartialEq, Eq, Structural)]
pub enum Mark {
    Pending,
    Passed,
    Failed,
}

/// The whole state of the check.
#[derive(Clone, Debug, PartialEq, Eq)]
pub struct OmsCheck {
    /// The url of the sync server, as configured.
    pub url: String,
    /// The name under which the site logs in to the sync server.
    pub username: String,
    /// The text of the last failed resolution; empty while none has failed.
    pub error: String,
    pub configuration: Test,
    pub connected: Test,
}

/// The mathematical content of a [`TestResult`].
pub struct TestResultModel {
    pub success: bool,
    pub error: Seq<char>,
}

/// The mathematical content of a [`Test`].
pub struct TestModel {
    pub label: Seq<char>,
    pub result: Option<TestResultModel>,
}

/// The mathematical content of an [`OmsCheck`].
pub struct OmsCheckModel {
    pub url: Seq<char>,
    pub username: Seq<char>,
    pub error: Seq<char>,
    pub configuration: TestModel,
    pub connected: TestModel,
}

impl View for TestResult {
    type V = TestResultModel;

    open spec fn view(&self) -> TestResultModel {
        TestResultModel { success: self.success, error: self.error@ }
    }
}

impl View for Test {
    type V = TestModel;

    open spec fn view(&self) -> TestModel {
        TestModel {
            label: self.label@,
            result: match self.result {
                Some(result) => Some(result@),
                None => None,
            },
        }
    }
}

impl View for OmsCheck {
    type V = OmsCheckModel;

    open spec fn view(&self) -> OmsCheckModel {
        OmsCheckModel {
            url: self.url@,
            username: self.username@,
            error: self.error@,
            configuration: self.configuration@,
            connected: self.connected@,
        }
    }
}

impl TestResultModel {
    /// The result of a test that passed.
    pub open spec fn passed() -> TestResultModel {
        TestResultModel { success: true, error: Seq::empty() }
    }

    /// The result of a test that failed with `error`.
    pub open spec fn failed(error: Seq<char>) -> TestResultModel {
        TestResultModel { success: false, error }
    }
}

impl TestModel {
    /// The sign that stands beside the test.
    pub open spec fn mark(self) -> Mark {
        match self.result {
            None => Mark::Pending,
            Some(result) => if result.success {
                Mark::Passed
            } else {
                Mark::Failed
            },
        }
    }

    /// The text shown beside the test.
    pub open spec fn message(self) -> Seq<char> {
        match self.result {
            None => "pending..."@,
            Some(result) => if result.success {
                "Success!"@
            } else {
                "Error:"@ + result.error
            },
        }
    }
}

impl OmsCheckModel {
    /// The state before anything has run.
    pub open spec fn initial() -> OmsCheckModel {
        OmsCheckModel {
            url: Seq::empty(),
            username: Seq::empty(),
            error: Seq::empty(),
            configuration: TestModel { label: "Parsed configuration"@, result: None },
            connected: TestModel { label: "Connect to server"@, result: None },
        }
    }

    /// The state after a resolution that gave `settings`: url and user name are
    /// those of the sync section, and empty without one.
    pub open spec fn with_settings(self, settings: SettingsModel) -> OmsCheckModel {
        OmsCheckModel {
            url: match settings.sync {
                Some(sync) => sync.url,
                None => Seq::empty(),
            },
            username: match settings.sync {
                Some(sync) => sync.username,
                None => Seq::empty(),
            },
            ..self
        }
    }

    /// The state after a resolution that failed with `fault`.
    pub open spec fn with_failure(self, fault: SettingsFault) -> OmsCheckModel {
        OmsCheckModel { error: fault.message_text(), ..self }
    }

    /// Whether a resolution has failed. A failure stays on record.
    pub open spec fn has_failed(self) -> bool {
        self.error.len() > 0
    }

    /// The configuration test passes as soon as the state is seen without a
    /// failure on record.
    pub open spec fn reviewed(self) -> OmsCheckModel {
        if self.has_failed() {
            self
        } else {
            OmsCheckModel {
                configuration: TestModel {
                    label: self.configuration.label,
                    result: Some(TestResultModel::passed()),
                },
                ..self
            }
        }
    }

    /// The state after a resolution with this outcome.
    pub open spec fn configured(self, outcome: Result<SettingsModel, SettingsFault>) -> OmsCheckModel {
        match outcome {
            Ok(settings) => self.with_settings(settings).reviewed(),
            Err(fault) => self.with_failure(fault).reviewed(),
        }
    }

    /// The state after a connection attempt that ended with `outcome`.
    pub open spec fn connection_checked(self, outcome: Result<(), Seq<char>>) -> OmsCheckModel {
        OmsCheckModel {
            connected: TestModel {
                label: self.connected.label,
                result: Some(
                    match outcome {
                        Ok(_) => TestResultModel::passed(),
                        Err(error) => TestResultModel::failed(error),
                    },
                ),
            },
            ..self
        }
    }

    /// The line that reports a failed resolution.
    pub open spec fn failure_line(self) -> Seq<char> {
        "Unable to parse settings: "@ + self.error
    }

    /// The line that shows the sync server.
    pub open spec fn url_line(self) -> Seq<char> {
        "Sync URL: "@ + self.url
    }

    /// The line that shows the user name.
    pub open spec fn login_line(self) -> Seq<char> {
        "Login: "@ + self.username
    }
}

impl TestResult {
    /// The result of a test that passed.
    pub fn passed() -> (result: TestResult)
        ensures
            result@ == TestResultModel::passed(),
    {
        TestResult { success: true, error: String::new() }
    }

    /// The result of a test that failed with `error`.
    pub fn failed(error: String) -> (result: TestResult)
        ensures
            result@ == TestResultModel::failed(error@),
    {
        TestResult { success: false, error }
    }
}

impl Test {
    /// The sign that stands beside the test.
    pub fn mark(&self) -> (mark: Mark)
        ensures
            mark == self@.mark(),
    {
        match &self.result {
            None => Mark::Pending,
            Some(result) => if result.success {
                Mark::Passed
            } else {
                Mark::Failed
            },
        }
    }

    /// The text shown beside the test.
    pub fn message(&self) -> (text: String)
        ensures
            text@ == self@.message(),
    {
        match &self.result {
            None => String::from_str("pending..."),
            Some(result) => if result.success {
                String::from_str("Success!")
            } else {
                let mut text = String::from_str("Error:");
                text.append(result.error.as_str());
                text
            },
        }
    }
}

impl Default for OmsCheck {
    fn default() -> (state: OmsCheck)
        ensures
            state@ == OmsCheckModel::initial(),
    {
        OmsCheck {
            url: String::new(),
            username: String::new(),
            error: String::new(),
            configuration: Test { label: "Parsed configuration", result: None },
            connected: Test { label: "Connect to server", result: None },
        }
    }
}

impl OmsCheck {
    /// Whether a resolution has failed.
    pub fn has_failed(&self) -> (failed: bool)
        ensures
            failed == self@.has_failed(),
    {
        !self.error.as_str().is_empty()
    }

    /// Takes in the outcome of a resolution.
    pub fn configured(&mut self, outcome: Result<Settings, SettingsError>)
        ensures
            final(self)@ == old(self)@.configured(
                match outcome {
                    Ok(settings) => Ok(settings@),
                    Err(error) => Err(error@),
                },
            ),
    {
        match outcome {
            Ok(settings) => match settings.sync {
                Some(sync) => {
                    self.username = sync.username;
                    self.url = sync.url;
                },
                None => {
                    self.username = String::new();
                    self.url = String::new();
                },
            },
            Err(error) => {
                self.error = error.message();
            },
        }
        if !self.has_failed() {
            self.configuration.result = Some(TestResult::passed());
        }
    }

    /// Takes in the outcome of a connection attempt: nothing on success, the
    /// text of the failure otherwise.
    pub fn connection_checked(&mut self, outcome: Result<(), String>)
        ensures
            final(self)@ == old(self)@.connection_checked(
                match outcome {
                    Ok(_) => Ok(()),
                    Err(error) => Err(error@),
                },
            ),
    {
        self.connected.result = Some(
            match outcome {
                Ok(_) => TestResult::passed(),
                Err(error) => TestResult::failed(error),
            },
        );
    }

    /// The line that reports a failed resolution.
    pub fn failure_line(&self) -> (text: String)
        ensures
            text@ == self@.failure_line(),
    {
        let mut text = String::from_str("Unable to parse settings: ");
        text.append(self.error.as_str());
        text
    }

    /// The line that shows the sync server.
    pub fn url_line(&self) -> (text: String)
        ensures
            text@ == self@.url_line(),
    {
        let mut text = String::from_str("Sync URL: ");
        text.append(self.url.as_str());
        text
    }

    /// The line that shows the user name.
    pub fn login_line(&self) -> (text: String)
        ensures
            text@ == self@.login_line(),
    {
        let mut text = String::from_str("Login: ");
        text.append(self.username.as_str());
        text
    }
}

} // verus!

//! The license group: the license named by the environment is legitimate and not yet
//! activated on another instance.
use vstd::prelude::*;

use crate::helpers::{
    group_from, group_outcome, CategoryView, CheckGroup, CheckGroupCategory, CheckGroupResult,
    CheckResult, CheckResultValue, CheckView, GroupView, ResultView,
};
use crate::text::concat_strs;

verus! {

pub const GROUP_IDENTIFIER: &'static str = "license";

pub const NAME: &'static str = "License Checks";

/// What the license service answered about the license: whether its status is "not
/// activated" (the only status accepted), and the text of that status.
pub struct LicenseStatus {
    pub not_activated: bool,
    pub text: String,
}

/// What the legitimacy check gives for the service's answer (or the error met asking).
pub open spec fn legit_view(status: Result<(bool, Seq<char>), Seq<char>>) -> CheckView {
    CheckView {
        name: NAME@,
        output: None,
        result: match status {
            Err(e) => ResultView::Failed(e),
            Ok((true, _)) => ResultView::Passed,
            Ok((false, t)) => ResultView::Failed("Unexpected ValidationStatus: "@ + t),
        },
    }
}

/// The view of the service's answer.
pub open spec fn status_view(s: Result<LicenseStatus, String>) -> Result<(bool, Seq<char>), Seq<char>> {
    match s {
        Ok(st) => Ok((st.not_activated, st.text@)),
        Err(e) => Err(e@),
    }
}

pub struct LicenseChecks {}

impl LicenseChecks {
    pub fn new() -> (r: LicenseChecks) {
        LicenseChecks {  }
    }

    /// The license key the client is created from: the value of the license key environment
    /// variable, or an errored check when it is not set.
    pub fn get_license_client(&self, license_key: Option<String>) -> (r: Result<String, CheckResult>)
        ensures
            match license_key {
                Some(k) => r matches Ok(key) && key@ == k@,
                None => r matches Err(c) && c@ == (CheckView {
                    name: NAME@,
                    output: None,
                    result: ResultView::Errored("LICENCE_KEY_ENV_VAR is not set"@),
                }),
            },
    {
        match license_key {
            Some(k) => Ok(k),
            None => Err(
                CheckResult::new(
                    NAME,
                    CheckResultValue::Errored(String::from_str("LICENCE_KEY_ENV_VAR is not set")),
                ),
            ),
        }
    }

    /// The errored check reported when the license client cannot be created from the key.
    pub fn client_error(&self, error: String) -> (r: CheckResult)
        ensures
            r@ == (CheckView { name: NAME@, output: None, result: ResultView::Errored(error@) }),
    {
        CheckResult::new(NAME, CheckResultValue::Errored(error))
    }

    /// Checks that the license is legitimate: the service reports it as not yet activated.
    pub fn check_license_legit(&self, status: Result<LicenseStatus, String>) -> (r: CheckResult)
        ensures
            r@ == legit_view(status_view(status)),
    {
        match status {
            Err(e) => CheckResult::new(NAME, CheckResultValue::Failed(e)),
            Ok(st) => {
                if st.not_activated {
                    CheckResult::new(NAME, CheckResultValue::Passed)
                } else {
                    CheckResult::new(
                        NAME,
                        CheckResultValue::Failed(
                            concat_strs("Unexpected ValidationStatus: ", st.text.as_str()),
                        ),
                    )
                }
            },
        }
    }

    /// The group's result: `client` is the errored check met creating the client, or what the
    /// service answered.
    pub fn run_all(&self, client: Result<Result<LicenseStatus, String>, CheckResult>) -> (r:
        CheckGroupResult)
        ensures
            match client {
                Err(c) => r@ == (GroupView {
                    name: NAME@,
                    result: ResultView::Errored("Could not create license client"@),
                    results: seq![c@],
                }),
                Ok(status) => r@ == (GroupView {
                    name: NAME@,
                    result: group_outcome(seq![legit_view(status_view(status))], ""@, ""@),
                    results: seq![legit_view(status_view(status))],
                }),
            },
    {
        match client {
            Err(c) => {
                let mut results = Vec::new();
                results.push(c);
                let r = CheckGroupResult {
                    name: String::from_str(NAME),
                    result: CheckResultValue::Errored(
                        String::from_str("Could not create license client"),
                    ),
                    results,
                };
                assert(r@.results =~= seq![c@]);
                r
            },
            Ok(status) => {
                let ghost s = status_view(status);
                let mut results = Vec::new();
                results.push(self.check_license_legit(status));
                let r = group_from(NAME, results, "", "");
                assert(r@.results =~= seq![legit_view(s)]);
                r
            },
        }
    }
}

impl CheckGroup for LicenseChecks {
    fn name(&self) -> (r: &str)
        ensures
            r@ == NAME@,
    {
        NAME
    }

    fn id(&self) -> (r: &str)
        ensures
            r@ == GROUP_IDENTIFIER@,
    {
        GROUP_IDENTIFIER
    }

    fn description(&self) -> (r: &str)
        ensures
            r@ == "Checks that the license provided by the EDERA_LICENSE_KEY environment variable is legitimate and not registered to another instance"@,
    {
        "Checks that the license provided by the EDERA_LICENSE_KEY environment variable is legitimate and not registered to another instance"
    }

    fn category(&self) -> (r: CheckGroupCategory)
        ensures
            r@ == CategoryView::Optional("License checks can be omitted if user wishes to provide the license after edera-check is run"@),
    {
        CheckGroupCategory::Optional(
            String::from_str(
                "License checks can be omitted if user wishes to provide the license after edera-check is run",
            ),
        )
    }
}

} // verus!

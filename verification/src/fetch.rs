use crate::changelog::{Changelog, CurrentCommit, MergeRequest};
use vstd::prelude::*;
use vstd::string::StringExecFns;

verus! {

/// Why the dashboard could not be configured.
#[derive(Debug)]
pub enum ConfigurationError {
    /// No credential was given, or an empty one.
    MissingCredential,
}

/// What a failed fetch says, as plain text.
pub enum FetchErrorView {
    HelperFailed(Seq<char>),
    Malformed,
}

/// Why the changelog of a repository could not be had.
#[derive(Debug)]
pub enum FetchError {
    /// The helper ended with a failure; this is what it wrote to its error output.
    HelperFailed(String),
    /// The helper ended well, but its output does not have the shape of a changelog.
    Malformed,
}

impl View for FetchError {
    type V = FetchErrorView;

    open spec fn view(&self) -> FetchErrorView {
        match self {
            FetchError::HelperFailed(detail) => FetchErrorView::HelperFailed(detail@),
            FetchError::Malformed => FetchErrorView::Malformed,
        }
    }
}

impl FetchError {
    /// The text to show the operator: the helper's own words where it failed.
    pub fn message(&self) -> (text: String)
        ensures
            text@ == match self@ {
                FetchErrorView::HelperFailed(detail) => detail,
                FetchErrorView::Malformed => "JSON was not well-formatted"@,
            },
    {
        match self {
            FetchError::HelperFailed(detail) => detail.clone(),
            FetchError::Malformed => "JSON was not well-formatted".to_owned(),
        }
    }
}

/// A changelog as the helper writes it. Helpers differ in how they spell the
/// version field, and not all of them report the newest commit.
#[derive(Debug)]
pub struct ChangelogPayload {
    pub version: Option<u32>,
    pub next_version_number: Option<u32>,
    pub current_time: String,
    pub commit: Option<CurrentCommit>,
    pub merge_requests: Vec<MergeRequest>,
}

/// The version a payload gives: the one it holds, under either spelling, and
/// none where it holds no version or two.
pub open spec fn payload_version(version: Option<u32>, next_version_number: Option<u32>) -> Option<
    u32,
> {
    match (version, next_version_number) {
        (Some(v), None) => Some(v),
        (None, Some(v)) => Some(v),
        _ => None,
    }
}

/// The changelog a payload stands for, or the reason it stands for none.
pub open spec fn normalized(payload: ChangelogPayload) -> Result<Changelog, FetchError> {
    match payload_version(payload.version, payload.next_version_number) {
        Some(v) => Ok(
            Changelog {
                next_version_number: v,
                commit: payload.commit,
                current_time: payload.current_time,
                merge_requests: payload.merge_requests,
            },
        ),
        None => Err(FetchError::Malformed),
    }
}

/// What one run of the helper comes to. A failed run gives the helper's
/// diagnostics, whatever it printed besides; a run that ended well gives the
/// changelog its output stands for, where it stands for one.
pub open spec fn run_outcome(
    succeeded: bool,
    diagnostics: String,
    payload: Option<ChangelogPayload>,
) -> Result<Changelog, FetchError> {
    if !succeeded {
        Err(FetchError::HelperFailed(diagnostics))
    } else {
        match payload {
            Some(payload) => normalized(payload),
            None => Err(FetchError::Malformed),
        }
    }
}

impl ChangelogPayload {
    /// Brings the payload into the one form the dashboard keeps.
    pub fn normalize(self) -> (result: Result<Changelog, FetchError>)
        ensures
            result == normalized(self),
    {
        let version = match (self.version, self.next_version_number) {
            (Some(v), None) => Some(v),
            (None, Some(v)) => Some(v),
            _ => None,
        };
        match version {
            Some(v) => Ok(
                Changelog {
                    next_version_number: v,
                    commit: self.commit,
                    current_time: self.current_time,
                    merge_requests: self.merge_requests,
                },
            ),
            None => Err(FetchError::Malformed),
        }
    }
}

/// Accepts a credential that is there and not empty.
pub fn credential(value: Option<String>) -> (result: Result<String, ConfigurationError>)
    ensures
        match value {
            Some(token) => if token@.len() > 0 {
                result == Ok::<String, ConfigurationError>(token)
            } else {
                result == Err::<String, ConfigurationError>(ConfigurationError::MissingCredential)
            },
            None => result == Err::<String, ConfigurationError>(
                ConfigurationError::MissingCredential,
            ),
        },
{
    match value {
        Some(token) => {
            if token.as_str().is_empty() {
                Err(ConfigurationError::MissingCredential)
            } else {
                Ok(token)
            }
        },
        None => Err(ConfigurationError::MissingCredential),
    }
}

/// The arguments the helper is started with for one repository, behind the
/// path of its script.
pub fn helper_arguments(project_id: &str, token: &str) -> (arguments: Vec<String>)
    requires
        token@.len() > 0,
    ensures
        arguments@.len() == 3,
        arguments@[0]@ == "--format=json"@,
        arguments@[1]@ == "--projectId="@ + project_id@,
        arguments@[2]@ == "--token="@ + token@,
{
    let mut arguments: Vec<String> = Vec::new();
    arguments.push("--format=json".to_owned());
    arguments.push("--projectId=".to_owned().concat(project_id));
    arguments.push("--token=".to_owned().concat(token));
    arguments
}

/// What one run of the helper comes to.
pub fn snapshot_from_run(
    succeeded: bool,
    diagnostics: String,
    payload: Option<ChangelogPayload>,
) -> (result: Result<Changelog, FetchError>)
    ensures
        result == run_outcome(succeeded, diagnostics, payload),
{
    if !succeeded {
        Err(FetchError::HelperFailed(diagnostics))
    } else {
        match payload {
            Some(payload) => payload.normalize(),
            None => Err(FetchError::Malformed),
        }
    }
}

} // verus!

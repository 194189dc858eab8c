//! The error shared by the whole library.
use vstd::prelude::*;

verus! {

/// The error of the `globset` crate.
#[verifier::external_type_specification]
#[verifier::external_body]
pub struct ExGlobsetError(globset::Error);

/// The error of the `git2` crate.
#[verifier::external_type_specification]
#[verifier::external_body]
pub struct ExGitError(git2::Error);

/// The error of the `serde_json` crate.
#[verifier::external_type_specification]
#[verifier::external_body]
pub struct ExSerdeJsonError(serde_json::Error);

/// The error of input and output operations.
#[verifier::external_type_specification]
#[verifier::external_body]
pub struct ExIoError(std::io::Error);

/// A result whose error is a [HuskyError].
pub type HuskyResult<T> = Result<T, HuskyError>;

/// A result that carries no value on success.
pub type UnitHuskyResult = HuskyResult<()>;

/// The shared application error.
#[derive(Debug)]
pub enum HuskyError {
    /// An error of the git repository.
    Git(git2::Error),
    /// An input/output error.
    Io(std::io::Error),
    /// The task runner file was not found or could not be parsed.
    InvalidTaskRunnerFile,
    /// The requested task does not exist.
    TaskNotFound,
    /// The task did not complete successfully.
    TaskFailed,
    /// The task was skipped because of its include or exclude globs.
    TaskSkipped(String),
    /// The task runner file is not valid JSON for a task list.
    Serde(serde_json::Error),
    /// A glob pattern could not be compiled.
    Globset(globset::Error),
}

impl vstd::std_specs::convert::FromSpecImpl<globset::Error> for HuskyError {
    open spec fn obeys_from_spec() -> bool {
        true
    }

    open spec fn from_spec(v: globset::Error) -> Self {
        HuskyError::Globset(v)
    }
}

impl From<globset::Error> for HuskyError {
    fn from(value: globset::Error) -> (res: Self) {
        HuskyError::Globset(value)
    }
}

impl vstd::std_specs::convert::FromSpecImpl<git2::Error> for HuskyError {
    open spec fn obeys_from_spec() -> bool {
        true
    }

    open spec fn from_spec(v: git2::Error) -> Self {
        HuskyError::Git(v)
    }
}

impl From<git2::Error> for HuskyError {
    fn from(value: git2::Error) -> (res: Self) {
        HuskyError::Git(value)
    }
}

impl vstd::std_specs::convert::FromSpecImpl<std::io::Error> for HuskyError {
    open spec fn obeys_from_spec() -> bool {
        true
    }

    open spec fn from_spec(v: std::io::Error) -> Self {
        HuskyError::Io(v)
    }
}

impl From<std::io::Error> for HuskyError {
    fn from(value: std::io::Error) -> (res: Self) {
        HuskyError::Io(value)
    }
}

impl vstd::std_specs::convert::FromSpecImpl<serde_json::Error> for HuskyError {
    open spec fn obeys_from_spec() -> bool {
        true
    }

    open spec fn from_spec(v: serde_json::Error) -> Self {
        HuskyError::Serde(v)
    }
}

impl From<serde_json::Error> for HuskyError {
    fn from(value: serde_json::Error) -> (res: Self) {
        HuskyError::Serde(value)
    }
}

} // verus!

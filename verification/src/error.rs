//! The failures of each operation, what each says, and its POSIX error code.

use crate::exchange::{Outcome, OutcomeView};
use crate::text::{lossy, lossy_text, texts};
use posix_errors::PosixError;
use vstd::prelude::*;

verus! {

/// `posix_errors::PosixError`: a code and a message, neither of which this library looks
/// into.
#[verifier::external_type_specification]
#[verifier::external_body]
pub struct ExPosixError(PosixError);

/// The code that `PosixError::code` returns for `error`.
pub uninterp spec fn code_of(error: PosixError) -> i32;

/// The text that `PosixError::message` returns for `error`, which is also what it
/// displays.
pub uninterp spec fn message_of(error: PosixError) -> Seq<char>;

/// How `{:?}` formats a list of strings.
pub uninterp spec fn debug_of(list: Seq<Seq<char>>) -> Seq<char>;

/// `PosixError::new` keeps the code and the message that it is given.
pub assume_specification[ PosixError::new ](code: i32, message: String) -> (error: PosixError)
    ensures
        code_of(error) == code,
        message_of(error) == message@,
;

/// `PosixError::message` returns a copy of the message.
pub assume_specification[ PosixError::message ](error: &PosixError) -> (message: String)
    ensures
        message@ == message_of(*error),
;

/// The derived `clone` of `PosixError` copies the code and the message.
pub assume_specification[ <PosixError as Clone>::clone ](error: &PosixError) -> (copy: PosixError)
    ensures
        copy == *error,
;

/// `posix_errors::ENOENT`: no such file or directory.
#[verifier::external_body]
fn enoent() -> (code: i32)
    ensures
        code == ENOENT,
{
    posix_errors::ENOENT
}

/// `posix_errors::EINVAL`: invalid argument.
#[verifier::external_body]
fn einval() -> (code: i32)
    ensures
        code == EINVAL,
{
    posix_errors::EINVAL
}

/// `posix_errors::EACCES`: permission denied.
#[verifier::external_body]
fn eacces() -> (code: i32)
    ensures
        code == EACCES,
{
    posix_errors::EACCES
}

/// `format!` with `{:?}` on a list of strings.
#[verifier::external_body]
fn debug_text(list: &Vec<String>) -> (text: String)
    ensures
        text@ == debug_of(texts(list@)),
{
    format!("{:?}", list)
}

/// No such file or directory.
pub const ENOENT: i32 = 2;

/// Permission denied.
pub const EACCES: i32 = 13;

/// Invalid argument.
pub const EINVAL: i32 = 22;

/// `before` and `behind` in one string.
fn joined(before: &str, behind: &str) -> (text: String)
    ensures
        text@ == before@ + behind@,
{
    let mut text = before.to_owned();
    text.append(behind);
    text
}

/// `before`, `middle` and `behind` in one string.
fn framed(before: &str, middle: &str, behind: &str) -> (text: String)
    ensures
        text@ == before@ + middle@ + behind@,
{
    let mut text = before.to_owned();
    text.append(middle);
    text.append(behind);
    text
}

impl OutcomeView {
    /// The code of a call that failed, as a POSIX error: its exit code, and 1 where there
    /// is none or where it is 0.
    pub open spec fn failure_code(self) -> i32 {
        if self.code_or_one() == 0 {
            1
        } else {
            self.code_or_one()
        }
    }
}

impl Outcome {
    /// The outcome of a call that failed, as a POSIX error: its code, and what the tool
    /// printed as its error.
    pub fn to_posix(&self) -> (error: PosixError)
        ensures
            code_of(error) == self@.failure_code(),
            message_of(error) == lossy_text(self@.stderr),
    {
        let message = lossy(self.stderr.as_slice());
        let code = self.code_or_one();
        if code == 0 {
            PosixError::new(1, message)
        } else {
            PosixError::new(code, message)
        }
    }
}

/// Failed to read a configuration value.
#[derive(Debug, PartialEq, Eq)]
pub enum ConfigReadError {
    /// The key, which has no value or names no section.
    InvalidSectionOrKey(String),
    /// What the tool said of the configuration file.
    InvalidConfigFile(String),
}

impl ConfigReadError {
    /// What the failure says.
    pub open spec fn message(&self) -> Seq<char> {
        match self {
            ConfigReadError::InvalidSectionOrKey(key) => "Invalid section key in config "@ + key@,
            ConfigReadError::InvalidConfigFile(text) => "Invalid config file "@ + text@,
        }
    }

    /// What the failure says.
    pub fn to_string(&self) -> (text: String)
        ensures
            text@ == self.message(),
    {
        match self {
            ConfigReadError::InvalidSectionOrKey(key) => joined(
                "Invalid section key in config ",
                key.as_str(),
            ),
            ConfigReadError::InvalidConfigFile(text) => joined("Invalid config file ", text.as_str()),
        }
    }
}

/// Failed to change a configuration file.
#[derive(Debug, PartialEq, Eq)]
pub enum ConfigSetError {
    InvalidSectionOrKey(String),
    InvalidConfigFile(String),
    WriteFailed(String),
}

impl ConfigSetError {
    /// What the failure says.
    pub open spec fn message(&self) -> Seq<char> {
        match self {
            ConfigSetError::InvalidSectionOrKey(text) => text@,
            ConfigSetError::InvalidConfigFile(text) => text@,
            ConfigSetError::WriteFailed(text) => text@,
        }
    }

    /// What the failure says: what the tool printed.
    pub fn to_string(&self) -> (text: String)
        ensures
            text@ == self.message(),
    {
        match self {
            ConfigSetError::InvalidSectionOrKey(text) => text.clone(),
            ConfigSetError::InvalidConfigFile(text) => text.clone(),
            ConfigSetError::WriteFailed(text) => text.clone(),
        }
    }
}

/// Failed to find out which directories make the repository.
#[derive(Debug, PartialEq, Eq)]
pub enum RepoError {
    /// No metadata directory at the start of the search nor above it.
    GitDirNotFound,
    /// The metadata directory belongs to a bare repository, or has no parent.
    BareRepo,
    /// The directory to search from is relative and has no canonical form.
    InvalidDirectory(String),
    /// The path is relative and has no canonical form.
    AbsolutionError(String),
    /// The current working directory cannot be had.
    FailAccessCwd,
}

/// A `RepoError` as specifications see it.
pub enum RepoErrorView {
    GitDirNotFound,
    BareRepo,
    InvalidDirectory(Seq<char>),
    AbsolutionError(Seq<char>),
    FailAccessCwd,
}

impl View for RepoError {
    type V = RepoErrorView;

    open spec fn view(&self) -> RepoErrorView {
        match self {
            RepoError::GitDirNotFound => RepoErrorView::GitDirNotFound,
            RepoError::BareRepo => RepoErrorView::BareRepo,
            RepoError::InvalidDirectory(path) => RepoErrorView::InvalidDirectory(path@),
            RepoError::AbsolutionError(path) => RepoErrorView::AbsolutionError(path@),
            RepoError::FailAccessCwd => RepoErrorView::FailAccessCwd,
        }
    }
}

impl RepoErrorView {
    /// What the failure says.
    pub open spec fn message(self) -> Seq<char> {
        match self {
            RepoErrorView::GitDirNotFound => "GIT_DIR Not found"@,
            RepoErrorView::BareRepo => "Bare repository"@,
            RepoErrorView::InvalidDirectory(path) => "Invalid directory: `"@ + path + "`"@,
            RepoErrorView::AbsolutionError(path) => "Failed to canonicalize the path buffer: `"@
                + path + "`"@,
            RepoErrorView::FailAccessCwd => "Failed to access current working directory"@,
        }
    }

    /// The code of the failure as a POSIX error.
    pub open spec fn code(self) -> i32 {
        match self {
            RepoErrorView::GitDirNotFound => ENOENT,
            RepoErrorView::InvalidDirectory(_) => ENOENT,
            RepoErrorView::AbsolutionError(_) => EINVAL,
            RepoErrorView::FailAccessCwd => EACCES,
            RepoErrorView::BareRepo => EINVAL,
        }
    }
}

impl Clone for RepoError {
    fn clone(&self) -> (copy: Self)
        ensures
            copy@ == self@,
    {
        match self {
            RepoError::GitDirNotFound => RepoError::GitDirNotFound,
            RepoError::BareRepo => RepoError::BareRepo,
            RepoError::InvalidDirectory(path) => RepoError::InvalidDirectory(path.clone()),
            RepoError::AbsolutionError(path) => RepoError::AbsolutionError(path.clone()),
            RepoError::FailAccessCwd => RepoError::FailAccessCwd,
        }
    }
}

impl RepoError {
    /// What the failure says.
    pub fn to_string(&self) -> (text: String)
        ensures
            text@ == self@.message(),
    {
        match self {
            RepoError::GitDirNotFound => "GIT_DIR Not found".to_owned(),
            RepoError::BareRepo => "Bare repository".to_owned(),
            RepoError::InvalidDirectory(path) => framed("Invalid directory: `", path.as_str(), "`"),
            RepoError::AbsolutionError(path) => framed(
                "Failed to canonicalize the path buffer: `",
                path.as_str(),
                "`",
            ),
            RepoError::FailAccessCwd => "Failed to access current working directory".to_owned(),
        }
    }

    /// The failure as a POSIX error: what is missing is `ENOENT`, what cannot be made
    /// absolute or has no working tree is `EINVAL`, what cannot be reached is `EACCES`.
    pub fn to_posix(&self) -> (error: PosixError)
        ensures
            code_of(error) == self@.code(),
            message_of(error) == self@.message(),
    {
        let message = self.to_string();
        match self {
            RepoError::GitDirNotFound => PosixError::new(enoent(), message),
            RepoError::InvalidDirectory(_) => PosixError::new(enoent(), message),
            RepoError::AbsolutionError(_) => PosixError::new(einval(), message),
            RepoError::FailAccessCwd => PosixError::new(eacces(), message),
            RepoError::BareRepo => PosixError::new(einval(), message),
        }
    }
}

/// The reference that the tool did not know.
#[derive(Debug, PartialEq, Eq)]
pub struct InvalidRefError(pub String);

impl InvalidRefError {
    /// What the failure says.
    pub open spec fn message(&self) -> Seq<char> {
        "Invalid git reference "@ + self.0@
    }

    /// What the failure says.
    pub fn to_string(&self) -> (text: String)
        ensures
            text@ == self.message(),
    {
        joined("Invalid git reference ", self.0.as_str())
    }
}

/// Failed to add a subtree.
#[derive(Debug, PartialEq, Eq)]
pub enum SubtreeAddError {
    BareRepository,
    WorkTreeDirty,
    /// What the tool printed as its error, and its exit code.
    Failure(String, i32),
}

impl SubtreeAddError {
    /// What the failure says.
    pub open spec fn message(&self) -> Seq<char> {
        match self {
            SubtreeAddError::BareRepository => "Bare repository"@,
            SubtreeAddError::WorkTreeDirty => "Working tree dirty"@,
            SubtreeAddError::Failure(text, _) => text@,
        }
    }

    /// The code of the failure as a POSIX error.
    pub open spec fn code(&self) -> i32 {
        match self {
            SubtreeAddError::BareRepository => EINVAL,
            SubtreeAddError::WorkTreeDirty => EINVAL,
            SubtreeAddError::Failure(_, code) => *code,
        }
    }

    /// What the failure says.
    pub fn to_string(&self) -> (text: String)
        ensures
            text@ == self.message(),
    {
        match self {
            SubtreeAddError::BareRepository => "Bare repository".to_owned(),
            SubtreeAddError::WorkTreeDirty => "Working tree dirty".to_owned(),
            SubtreeAddError::Failure(text, _) => text.clone(),
        }
    }

    /// The failure as a POSIX error: the tool's own exit code where the tool failed,
    /// `EINVAL` where the repository was not fit for the operation.
    pub fn to_posix(&self) -> (error: PosixError)
        ensures
            code_of(error) == self.code(),
            message_of(error) == self.message(),
    {
        match self {
            SubtreeAddError::BareRepository => PosixError::new(einval(), self.to_string()),
            SubtreeAddError::WorkTreeDirty => PosixError::new(einval(), self.to_string()),
            SubtreeAddError::Failure(text, code) => PosixError::new(*code, text.clone()),
        }
    }
}

/// Failed to pull changes from a remote into a subtree.
#[derive(Debug, PartialEq, Eq)]
pub enum SubtreePullError {
    WorkTreeDirty,
    /// What the tool printed as its error, and its exit code.
    Failure(String, i32),
}

impl SubtreePullError {
    /// What the failure says.
    pub open spec fn message(&self) -> Seq<char> {
        match self {
            SubtreePullError::WorkTreeDirty => "Working tree dirty"@,
            SubtreePullError::Failure(text, _) => text@,
        }
    }

    /// What the failure says.
    pub fn to_string(&self) -> (text: String)
        ensures
            text@ == self.message(),
    {
        match self {
            SubtreePullError::WorkTreeDirty => "Working tree dirty".to_owned(),
            SubtreePullError::Failure(text, _) => text.clone(),
        }
    }
}

/// Failed to push changes from a subtree to a remote.
#[derive(Debug, PartialEq, Eq)]
pub enum SubtreePushError {
    /// What the tool printed as its error, and its exit code.
    Failure(String, i32),
}

impl SubtreePushError {
    /// What the failure says.
    pub open spec fn message(&self) -> Seq<char> {
        match self {
            SubtreePushError::Failure(text, _) => text@,
        }
    }

    /// What the failure says.
    pub fn to_string(&self) -> (text: String)
        ensures
            text@ == self.message(),
    {
        match self {
            SubtreePushError::Failure(text, _) => text.clone(),
        }
    }
}

/// Failed to split a subtree.
#[derive(Debug, PartialEq, Eq)]
pub enum SubtreeSplitError {
    WorkTreeDirty,
    /// What the tool printed as its error, and its exit code.
    Failure(String, i32),
}

impl SubtreeSplitError {
    /// What the failure says.
    pub open spec fn message(&self) -> Seq<char> {
        match self {
            SubtreeSplitError::WorkTreeDirty => "Work tree is dirty"@,
            SubtreeSplitError::Failure(text, _) => text@,
        }
    }

    /// What the failure says.
    pub fn to_string(&self) -> (text: String)
        ensures
            text@ == self.message(),
    {
        match self {
            SubtreeSplitError::WorkTreeDirty => "Work tree is dirty".to_owned(),
            SubtreeSplitError::Failure(text, _) => text.clone(),
        }
    }
}

/// Failed to stage a file.
#[derive(Debug, PartialEq, Eq)]
pub enum StagingError {
    /// What the tool printed as its error, and its exit code.
    Failure(String, i32),
    /// The path, relative to the working tree, that names no file there.
    FileDoesNotExist(String),
}

impl StagingError {
    /// What the failure says.
    pub open spec fn message(&self) -> Seq<char> {
        match self {
            StagingError::Failure(text, _) => "`"@ + text@ + "`"@,
            StagingError::FileDoesNotExist(path) => "File does not exist: `"@ + path@ + "`"@,
        }
    }

    /// The code of the failure as a POSIX error.
    pub open spec fn code(&self) -> i32 {
        match self {
            StagingError::Failure(_, code) => *code,
            StagingError::FileDoesNotExist(_) => ENOENT,
        }
    }

    /// What the failure says.
    pub fn to_string(&self) -> (text: String)
        ensures
            text@ == self.message(),
    {
        match self {
            StagingError::Failure(text, _) => framed("`", text.as_str(), "`"),
            StagingError::FileDoesNotExist(path) => framed(
                "File does not exist: `",
                path.as_str(),
                "`",
            ),
        }
    }

    /// The failure as a POSIX error: `ENOENT` for a missing file, else the tool's own
    /// exit code.
    pub fn to_posix(&self) -> (error: PosixError)
        ensures
            code_of(error) == self.code(),
            message_of(error) == self.message(),
    {
        let message = self.to_string();
        match self {
            StagingError::FileDoesNotExist(_) => PosixError::new(enoent(), message),
            StagingError::Failure(_, code) => PosixError::new(*code, message),
        }
    }
}

/// Failed to stash changes or to bring them back.
#[derive(Debug, PartialEq, Eq)]
pub enum StashingError {
    /// The tool's exit code and what it printed as its error.
    Save(i32, String),
    /// The tool's exit code and what it printed as its error.
    Pop(i32, String),
}

impl StashingError {
    /// What the failure says.
    pub open spec fn message(&self) -> Seq<char> {
        match self {
            StashingError::Save(_, _) => "Failed to stash changes in GIT_WORK_TREE"@,
            StashingError::Pop(_, _) => "Failed to pop stashed changes in GIT_WORK_TREE"@,
        }
    }

    /// What the failure says.
    pub fn to_string(&self) -> (text: String)
        ensures
            text@ == self.message(),
    {
        match self {
            StashingError::Save(_, _) => "Failed to stash changes in GIT_WORK_TREE".to_owned(),
            StashingError::Pop(_, _) => "Failed to pop stashed changes in GIT_WORK_TREE".to_owned(),
        }
    }
}

/// Failed to commit.
#[derive(Debug, PartialEq, Eq)]
pub enum CommitError {
    /// What the tool printed as its error, and its exit code.
    Failure(String, i32),
}

impl CommitError {
    /// What the failure says.
    pub open spec fn message(&self) -> Seq<char> {
        match self {
            CommitError::Failure(text, _) => "`"@ + text@ + "`"@,
        }
    }

    /// What the failure says.
    pub fn to_string(&self) -> (text: String)
        ensures
            text@ == self.message(),
    {
        match self {
            CommitError::Failure(text, _) => framed("`", text.as_str(), "`"),
        }
    }
}

/// Failed to find a reference on a remote.
#[derive(Debug, PartialEq)]
pub enum RefSearchError {
    /// The query of the remote failed: what the tool printed as its error.
    Failure(String),
    /// The tool could not be run.
    IOError(PosixError),
    /// The remote answered and has no such reference.
    NotFound(String),
    /// The tool printed a line that holds no object identifier.
    ParsingFailure(String),
}

impl RefSearchError {
    /// What the failure says.
    pub open spec fn message(&self) -> Seq<char> {
        match self {
            RefSearchError::Failure(text) => text@,
            RefSearchError::IOError(error) => message_of(*error),
            RefSearchError::NotFound(name) => "Failed to find reference "@ + name@,
            RefSearchError::ParsingFailure(line) => "Failed to parse git-ls-remote(1) output: "@
                + line@,
        }
    }

    /// The code of the failure as a POSIX error.
    pub open spec fn posix_code(&self) -> i32 {
        match self {
            RefSearchError::Failure(_) => ENOENT,
            RefSearchError::IOError(error) => code_of(*error),
            RefSearchError::NotFound(_) => ENOENT,
            RefSearchError::ParsingFailure(_) => EINVAL,
        }
    }

    /// The message of the failure as a POSIX error: the payload alone.
    pub open spec fn posix_message(&self) -> Seq<char> {
        match self {
            RefSearchError::Failure(text) => text@,
            RefSearchError::IOError(error) => message_of(*error),
            RefSearchError::NotFound(name) => name@,
            RefSearchError::ParsingFailure(line) => line@,
        }
    }

    /// What the failure says.
    pub fn to_string(&self) -> (text: String)
        ensures
            text@ == self.message(),
    {
        match self {
            RefSearchError::Failure(text) => text.clone(),
            RefSearchError::IOError(error) => error.message(),
            RefSearchError::NotFound(name) => joined("Failed to find reference ", name.as_str()),
            RefSearchError::ParsingFailure(line) => joined(
                "Failed to parse git-ls-remote(1) output: ",
                line.as_str(),
            ),
        }
    }

    /// The failure as a POSIX error: `ENOENT` where the remote or the reference was not
    /// found, `EINVAL` for output that cannot be read, and a failure to run the tool as
    /// it is.
    pub fn to_posix(&self) -> (error: PosixError)
        ensures
            code_of(error) == self.posix_code(),
            message_of(error) == self.posix_message(),
    {
        match self {
            RefSearchError::Failure(text) => PosixError::new(enoent(), text.clone()),
            RefSearchError::IOError(error) => error.clone(),
            RefSearchError::NotFound(name) => PosixError::new(enoent(), name.clone()),
            RefSearchError::ParsingFailure(line) => PosixError::new(einval(), line.clone()),
        }
    }
}

/// Failed to resolve what was given to a commit.
#[derive(Debug, PartialEq, Eq)]
pub enum InvalidCommitishError {
    One(String),
    /// All the identifiers that were given: one of them or more are unknown.
    Multiple(Vec<String>),
}

impl InvalidCommitishError {
    /// What the failure says.
    pub open spec fn message(&self) -> Seq<char> {
        match self {
            InvalidCommitishError::One(id) => "Invalid reference or commit id: `"@ + id@ + "`"@,
            InvalidCommitishError::Multiple(ids) =>
                "One or Multiple invalid reference or commit ids: `"@ + debug_of(texts(ids@))
                    + "`"@,
        }
    }

    /// What the failure says.
    pub fn to_string(&self) -> (text: String)
        ensures
            text@ == self.message(),
    {
        match self {
            InvalidCommitishError::One(id) => framed(
                "Invalid reference or commit id: `",
                id.as_str(),
                "`",
            ),
            InvalidCommitishError::Multiple(ids) => {
                let list = debug_text(ids);
                framed("One or Multiple invalid reference or commit ids: `", list.as_str(), "`")
            },
        }
    }
}

} // verus!

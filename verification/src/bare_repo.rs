//! A repository without a working tree.

use crate::error::ConfigReadError;
use crate::exchange::{asks, fatal, Answer, Invocation, InvocationView, Query, Step, Violation};
use crate::path::AbsoluteDirPath;
use crate::text::{lossy, lossy_text, strict, trim, trimmed};
use vstd::prelude::*;
use vstd::utf8::{decode_utf8, valid_utf8};

verus! {

/// A repository without a working tree: the metadata directory alone.
#[derive(Debug, PartialEq, Eq)]
pub struct BareRepository(AbsoluteDirPath);

impl View for BareRepository {
    type V = Seq<char>;

    closed spec fn view(&self) -> Seq<char> {
        self.0@
    }
}

impl Clone for BareRepository {
    fn clone(&self) -> (copy: Self)
        ensures
            copy@ == self@,
    {
        BareRepository(self.0.clone())
    }
}

/// The call of the tool on the bare repository in `git_dir`, before any argument:
/// `GIT_DIR` names the directory.
pub open spec fn bare_git(git_dir: Seq<char>) -> InvocationView {
    InvocationView::new("git"@).env("GIT_DIR"@, git_dir)
}

impl BareRepository {
    /// The bare repository whose metadata directory is `git_dir`.
    pub fn new(git_dir: AbsoluteDirPath) -> (repo: BareRepository)
        ensures
            repo@ == git_dir@,
    {
        BareRepository(git_dir)
    }

    /// The metadata directory.
    pub fn git_dir(&self) -> (dir: &AbsoluteDirPath)
        ensures
            dir@ == self@,
    {
        &self.0
    }

    /// The call of the tool on this repository, before any argument.
    pub fn git(&self) -> (call: Invocation)
        ensures
            call@ == bare_git(self@),
    {
        Invocation::new("git").env("GIT_DIR", self.0.as_str())
    }
}

impl BareRepository {
    /// The value of the configuration key `key`: what the tool prints, without the white
    /// space around it. Exit code 1 says that the key has no value or names no section:
    /// `InvalidSectionOrKey` with the key. Exit code 3 says that the configuration file
    /// cannot be used: `InvalidConfigFile` with what the tool printed as its error.
    ///
    /// Asks for one call. It is a violation where the call cannot be made, where it ends
    /// with another exit code or by a signal, and where it succeeds and prints what is
    /// not UTF-8.
    pub fn config(&self, key: &str, told: &[Answer]) -> (step: Step<
        Result<String, ConfigReadError>,
    >)
        ensures
            if told@.len() == 0 {
                asks(step, bare_git(self@).arg("config"@).arg(key@))
            } else {
                match told@[0] {
                    Answer::Ran(outcome) => match outcome@.code {
                        Some(0) => if valid_utf8(outcome@.stdout) {
                            step matches Step::Done(Ok(value)) && value@ == trim(
                                decode_utf8(outcome@.stdout),
                            )
                        } else {
                            fatal(step, Violation::Output)
                        },
                        Some(1) => step matches Step::Done(
                            Err(ConfigReadError::InvalidSectionOrKey(name)),
                        ) && name@ == key@,
                        Some(3) => step matches Step::Done(
                            Err(ConfigReadError::InvalidConfigFile(text)),
                        ) && text@ == lossy_text(outcome@.stderr),
                        _ => fatal(step, Violation::Status),
                    },
                    Answer::Failed(_) => fatal(step, Violation::Launch),
                    _ => fatal(step, Violation::Answer),
                }
            },
    {
        if told.len() == 0 {
            return Step::Ask(Query::Run(self.git().arg("config").arg(key)));
        }
        match &told[0] {
            Answer::Ran(outcome) => match outcome.code {
                Some(0) => match strict(outcome.stdout.as_slice()) {
                    Some(text) => Step::Done(Ok(trimmed(text.as_str()))),
                    None => Step::Fatal(Violation::Output),
                },
                Some(1) => Step::Done(Err(ConfigReadError::InvalidSectionOrKey(key.to_owned()))),
                Some(3) => Step::Done(
                    Err(ConfigReadError::InvalidConfigFile(lossy(outcome.stderr.as_slice()))),
                ),
                _ => Step::Fatal(Violation::Status),
            },
            Answer::Failed(_) => Step::Fatal(Violation::Launch),
            _ => Step::Fatal(Violation::Answer),
        }
    }
}

} // verus!

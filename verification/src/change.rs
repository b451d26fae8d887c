//! What changes a repository: commits, the index, the stash and the sparse checkout.

use crate::error::{CommitError, StagingError, StashingError};
use crate::exchange::{asks, fatal, Answer, InvocationView, Outcome, Query, Step, Violation};
use crate::path::{is_absolute, path_is_absolute, path_strip_prefix, strip_prefix};
use crate::repository::{Repository, RepositoryView};
use crate::text::{lossy, lossy_text};
use vstd::prelude::*;

verus! {

impl RepositoryView {
    /// The call that commits with the message `message` and the options chosen.
    pub open spec fn commit_call(
        self,
        message: Seq<char>,
        allow_empty: bool,
        skip_hooks: bool,
    ) -> InvocationView {
        let plain = self.git().arg("commit"@).arg("--quiet"@).arg("--no-edit"@);
        let empty = if allow_empty {
            plain.arg("--allow-empty"@)
        } else {
            plain
        };
        let verify = if skip_hooks {
            empty.arg("--no-verify"@)
        } else {
            empty
        };
        verify.arg("--message"@).arg(message)
    }

    /// `path` as the tool is to get it: below the working tree where it is absolute.
    /// `None` for an absolute path that does not lie in the working tree.
    pub open spec fn staged_path(self, path: Seq<char>) -> Option<Seq<char>> {
        if path_is_absolute(path) {
            path_strip_prefix(path, self.work_tree)
        } else {
            Some(path)
        }
    }
}

/// What a commit made of the way the tool ended: nothing where it succeeded, else what
/// the tool printed as its error and its exit code. No commit ends by a signal.
pub open spec fn committed(outcome: Outcome, step: Step<Result<(), CommitError>>) -> bool {
    match outcome@.code {
        Some(0) => step matches Step::Done(Ok(())),
        Some(code) => step matches Step::Done(Err(CommitError::Failure(text, failed))) && text@
            == lossy_text(outcome@.stderr) && failed == code,
        None => fatal(step, Violation::Status),
    }
}

fn commit_step(outcome: &Outcome) -> (step: Step<Result<(), CommitError>>)
    ensures
        committed(*outcome, step),
{
    match outcome.code {
        Some(0) => Step::Done(Ok(())),
        Some(code) => Step::Done(
            Err(CommitError::Failure(lossy(outcome.stderr.as_slice()), code)),
        ),
        None => Step::Fatal(Violation::Status),
    }
}

impl Repository {
    /// Commits what is staged, with the message `message`.
    ///
    /// Asks for one call. It is a violation where the call cannot be made, and where it
    /// is ended by a signal.
    pub fn commit(&self, message: &str, told: &[Answer]) -> (step: Step<Result<(), CommitError>>)
        ensures
            if told@.len() == 0 {
                asks(step, self@.git().arg("commit"@).arg("-m"@).arg(message@))
            } else {
                match told@[0] {
                    Answer::Ran(outcome) => committed(outcome, step),
                    Answer::Failed(_) => fatal(step, Violation::Launch),
                    _ => fatal(step, Violation::Answer),
                }
            },
    {
        if told.len() == 0 {
            return Step::Ask(Query::Run(self.git().arg("commit").arg("-m").arg(message)));
        }
        match &told[0] {
            Answer::Ran(outcome) => commit_step(outcome),
            Answer::Failed(_) => Step::Fatal(Violation::Launch),
            _ => Step::Fatal(Violation::Answer),
        }
    }

    /// Commits what is staged, with the message `message`, quietly and without an
    /// editor; with `allow_empty` also where nothing is staged, and with `skip_hooks`
    /// without the hooks.
    ///
    /// Asks for one call. It is a violation where the call cannot be made, and where it
    /// is ended by a signal.
    pub fn commit_extended(
        &self,
        message: &str,
        allow_empty: bool,
        skip_hooks: bool,
        told: &[Answer],
    ) -> (step: Step<Result<(), CommitError>>)
        ensures
            if told@.len() == 0 {
                asks(step, self@.commit_call(message@, allow_empty, skip_hooks))
            } else {
                match told@[0] {
                    Answer::Ran(outcome) => committed(outcome, step),
                    Answer::Failed(_) => fatal(step, Violation::Launch),
                    _ => fatal(step, Violation::Answer),
                }
            },
    {
        if told.len() == 0 {
            let mut call = self.git().arg("commit").arg("--quiet").arg("--no-edit");
            if allow_empty {
                call = call.arg("--allow-empty");
            }
            if skip_hooks {
                call = call.arg("--no-verify");
            }
            return Step::Ask(Query::Run(call.arg("--message").arg(message)));
        }
        match &told[0] {
            Answer::Ran(outcome) => commit_step(outcome),
            Answer::Failed(_) => Step::Fatal(Violation::Launch),
            _ => Step::Fatal(Violation::Answer),
        }
    }

    /// Adds `pattern` to the patterns of the sparse checkout. Where the tool fails, the
    /// failure is what it printed as its error.
    ///
    /// Asks for one call. It is a violation where the call cannot be made.
    pub fn sparse_checkout_add(&self, pattern: &str, told: &[Answer]) -> (step: Step<
        Result<(), String>,
    >)
        ensures
            if told@.len() == 0 {
                asks(step, self@.git().arg("sparse-checkout"@).arg("add"@).arg(pattern@))
            } else {
                match told@[0] {
                    Answer::Ran(outcome) => if outcome@.success() {
                        step matches Step::Done(Ok(()))
                    } else {
                        step matches Step::Done(Err(text)) && text@ == lossy_text(
                            outcome@.stderr,
                        )
                    },
                    Answer::Failed(_) => fatal(step, Violation::Launch),
                    _ => fatal(step, Violation::Answer),
                }
            },
    {
        if told.len() == 0 {
            return Step::Ask(
                Query::Run(self.git().arg("sparse-checkout").arg("add").arg(pattern)),
            );
        }
        match &told[0] {
            Answer::Ran(outcome) => {
                if outcome.success() {
                    Step::Done(Ok(()))
                } else {
                    Step::Done(Err(lossy(outcome.stderr.as_slice())))
                }
            },
            Answer::Failed(_) => Step::Fatal(Violation::Launch),
            _ => Step::Fatal(Violation::Answer),
        }
    }

    /// Stages the file `path`, which is relative to the working tree or lies in it. Exit
    /// code 128 says that there is no such file: `FileDoesNotExist` with the path below
    /// the working tree. Every other failure is `Failure` with what the tool printed as
    /// its error and its exit code.
    ///
    /// Asks for one call. It is a violation where `path` is absolute and does not lie in
    /// the working tree, where the call cannot be made, and where it is ended by a
    /// signal.
    pub fn stage(&self, path: &str, told: &[Answer]) -> (step: Step<Result<(), StagingError>>)
        ensures
            match self@.staged_path(path@) {
                None => fatal(step, Violation::Argument),
                Some(file) => if told@.len() == 0 {
                    asks(step, self@.git().arg("add"@).arg("--"@).arg(file))
                } else {
                    match told@[0] {
                        Answer::Ran(outcome) => match outcome@.code {
                            Some(0) => step matches Step::Done(Ok(())),
                            Some(128) => step matches Step::Done(
                                Err(StagingError::FileDoesNotExist(missing)),
                            ) && missing@ == file,
                            Some(code) => step matches Step::Done(
                                Err(StagingError::Failure(text, failed)),
                            ) && text@ == lossy_text(outcome@.stderr) && failed == code,
                            None => fatal(step, Violation::Status),
                        },
                        Answer::Failed(_) => fatal(step, Violation::Launch),
                        _ => fatal(step, Violation::Answer),
                    }
                },
            },
    {
        let file = if is_absolute(path) {
            match strip_prefix(path, self.git_work_tree()) {
                Some(rest) => rest,
                None => {
                    return Step::Fatal(Violation::Argument);
                },
            }
        } else {
            path.to_owned()
        };
        if told.len() == 0 {
            return Step::Ask(Query::Run(self.git().arg("add").arg("--").arg(file.as_str())));
        }
        match &told[0] {
            Answer::Ran(outcome) => match outcome.code {
                Some(0) => Step::Done(Ok(())),
                Some(128) => Step::Done(Err(StagingError::FileDoesNotExist(file))),
                Some(code) => Step::Done(
                    Err(StagingError::Failure(lossy(outcome.stderr.as_slice()), code)),
                ),
                None => Step::Fatal(Violation::Status),
            },
            Answer::Failed(_) => Step::Fatal(Violation::Launch),
            _ => Step::Fatal(Violation::Answer),
        }
    }

    /// Stashes what is staged, what is changed and what is untracked, under the message
    /// `message`. Where the tool fails: `Save` with its exit code, 1 where it was ended
    /// by a signal, and what it printed as its error.
    ///
    /// Asks for one call. It is a violation where the call cannot be made.
    pub fn stash_almost_all(&self, message: &str, told: &[Answer]) -> (step: Step<
        Result<(), StashingError>,
    >)
        ensures
            if told@.len() == 0 {
                asks(
                    step,
                    self@.git().arg("stash"@).arg("--quiet"@).arg("--include-untracked"@).arg(
                        "-m"@,
                    ).arg(message@),
                )
            } else {
                match told@[0] {
                    Answer::Ran(outcome) => if outcome@.success() {
                        step matches Step::Done(Ok(()))
                    } else {
                        step matches Step::Done(Err(StashingError::Save(code, text))) && code
                            == outcome@.code_or_one() && text@ == lossy_text(outcome@.stderr)
                    },
                    Answer::Failed(_) => fatal(step, Violation::Launch),
                    _ => fatal(step, Violation::Answer),
                }
            },
    {
        if told.len() == 0 {
            return Step::Ask(
                Query::Run(
                    self.git().arg("stash").arg("--quiet").arg("--include-untracked").arg(
                        "-m",
                    ).arg(message),
                ),
            );
        }
        match &told[0] {
            Answer::Ran(outcome) => {
                if outcome.success() {
                    Step::Done(Ok(()))
                } else {
                    Step::Done(
                        Err(
                            StashingError::Save(
                                outcome.code_or_one(),
                                lossy(outcome.stderr.as_slice()),
                            ),
                        ),
                    )
                }
            },
            Answer::Failed(_) => Step::Fatal(Violation::Launch),
            _ => Step::Fatal(Violation::Answer),
        }
    }

    /// Brings back what was stashed last, with what was staged then. Where the tool
    /// fails: `Pop` with its exit code, 1 where it was ended by a signal, and what it
    /// printed as its error.
    ///
    /// Asks for one call. It is a violation where the call cannot be made.
    pub fn stash_pop(&self, told: &[Answer]) -> (step: Step<Result<(), StashingError>>)
        ensures
            if told@.len() == 0 {
                asks(
                    step,
                    self@.git().arg("stash"@).arg("pop"@).arg("--quiet"@).arg("--index"@),
                )
            } else {
                match told@[0] {
                    Answer::Ran(outcome) => if outcome@.success() {
                        step matches Step::Done(Ok(()))
                    } else {
                        step matches Step::Done(Err(StashingError::Pop(code, text))) && code
                            == outcome@.code_or_one() && text@ == lossy_text(outcome@.stderr)
                    },
                    Answer::Failed(_) => fatal(step, Violation::Launch),
                    _ => fatal(step, Violation::Answer),
                }
            },
    {
        if told.len() == 0 {
            return Step::Ask(
                Query::Run(self.git().arg("stash").arg("pop").arg("--quiet").arg("--index")),
            );
        }
        match &told[0] {
            Answer::Ran(outcome) => {
                if outcome.success() {
                    Step::Done(Ok(()))
                } else {
                    Step::Done(
                        Err(
                            StashingError::Pop(
                                outcome.code_or_one(),
                                lossy(outcome.stderr.as_slice()),
                            ),
                        ),
                    )
                }
            },
            Answer::Failed(_) => Step::Fatal(Violation::Launch),
            _ => Step::Fatal(Violation::Answer),
        }
    }
}

} // verus!

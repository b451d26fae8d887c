//! Subtrees: other repositories kept in a directory of this one.
//!
//! Adding, pulling and splitting need a clean working tree. Each of them first asks the
//! tool for that, and asks for its own call only where the working tree is clean.

use crate::error::{
    SubtreeAddError,
    SubtreePullError,
    SubtreePushError,
    SubtreeSplitError,
};
use crate::exchange::{asks, fatal, Answer, InvocationView, Query, Step, Violation};
use crate::repository::{Repository, RepositoryView};
use crate::text::{lossy, lossy_text};
use vstd::prelude::*;

verus! {

impl RepositoryView {
    /// The call that adds the revision `revision` of the repository at `url` as a
    /// subtree in the directory `prefix`, with the message `message`.
    pub open spec fn subtree_add_call(
        self,
        url: Seq<char>,
        prefix: Seq<char>,
        revision: Seq<char>,
        message: Seq<char>,
    ) -> InvocationView {
        self.git().arg("subtree"@).arg("add"@).arg("-q"@).arg("-P"@).arg(prefix).arg(url).arg(
            revision,
        ).arg("-m"@).arg(message)
    }

    /// The call that pulls the reference `git_ref` of `remote` into the subtree in the
    /// directory `prefix`, with the message `message`.
    pub open spec fn subtree_pull_call(
        self,
        remote: Seq<char>,
        prefix: Seq<char>,
        git_ref: Seq<char>,
        message: Seq<char>,
    ) -> InvocationView {
        self.git().arg("subtree"@).arg("pull"@).arg("-q"@).arg("-P"@).arg(prefix).arg(remote).arg(
            git_ref,
        ).arg("-m"@).arg(message)
    }

    /// The call that pushes the subtree in the directory `prefix` to the reference
    /// `git_ref` of `remote`.
    pub open spec fn subtree_push_call(
        self,
        remote: Seq<char>,
        prefix: Seq<char>,
        git_ref: Seq<char>,
    ) -> InvocationView {
        self.git().arg("subtree"@).arg("push"@).arg("-q"@).arg("-P"@).arg(prefix).arg(remote).arg(
            git_ref,
        )
    }

    /// The call that splits the history of the directory `prefix` off and joins it
    /// again.
    pub open spec fn subtree_split_call(self, prefix: Seq<char>) -> InvocationView {
        self.git().arg("subtree"@).arg("split"@).arg("-P"@).arg(prefix).arg("--rejoin"@).arg(
            "HEAD"@,
        )
    }
}

impl Repository {
    /// Adds the revision `revision` of the repository at `url` as a subtree in the
    /// directory `prefix`. A working tree that is not clean is `WorkTreeDirty`, and the
    /// tool is not asked to add anything. Where the tool fails: `Failure` with what it
    /// printed as its error and its exit code, 1 where it was ended by a signal.
    ///
    /// Asks for the call that tells whether the working tree is clean, then for the call
    /// that adds. It is a violation where either cannot be made.
    pub fn subtree_add(
        &self,
        url: &str,
        prefix: &str,
        revision: &str,
        message: &str,
        told: &[Answer],
    ) -> (step: Step<Result<(), SubtreeAddError>>)
        ensures
            if told@.len() == 0 {
                asks(step, self@.diff_call())
            } else {
                match told@[0] {
                    Answer::Ran(probe) => if !probe@.success() {
                        step matches Step::Done(Err(SubtreeAddError::WorkTreeDirty))
                    } else if told@.len() == 1 {
                        asks(step, self@.subtree_add_call(url@, prefix@, revision@, message@))
                    } else {
                        match told@[1] {
                            Answer::Ran(outcome) => if outcome@.success() {
                                step matches Step::Done(Ok(()))
                            } else {
                                step matches Step::Done(
                                    Err(SubtreeAddError::Failure(text, code)),
                                ) && text@ == lossy_text(outcome@.stderr) && code
                                    == outcome@.code_or_one()
                            },
                            Answer::Failed(_) => fatal(step, Violation::Launch),
                            _ => fatal(step, Violation::Answer),
                        }
                    },
                    Answer::Failed(_) => fatal(step, Violation::Launch),
                    _ => fatal(step, Violation::Answer),
                }
            },
    {
        match self.is_clean(told) {
            Step::Ask(query) => {
                return Step::Ask(query);
            },
            Step::Fatal(violation) => {
                return Step::Fatal(violation);
            },
            Step::Done(clean) => {
                if !clean {
                    return Step::Done(Err(SubtreeAddError::WorkTreeDirty));
                }
            },
        }
        if told.len() == 1 {
            return Step::Ask(
                Query::Run(
                    self.git().arg("subtree").arg("add").arg("-q").arg("-P").arg(prefix).arg(
                        url,
                    ).arg(revision).arg("-m").arg(message),
                ),
            );
        }
        match &told[1] {
            Answer::Ran(outcome) => {
                if outcome.success() {
                    Step::Done(Ok(()))
                } else {
                    Step::Done(
                        Err(
                            SubtreeAddError::Failure(
                                lossy(outcome.stderr.as_slice()),
                                outcome.code_or_one(),
                            ),
                        ),
                    )
                }
            },
            Answer::Failed(_) => Step::Fatal(Violation::Launch),
            _ => Step::Fatal(Violation::Answer),
        }
    }

    /// Splits the history of the directory `prefix` off and joins it again. A working
    /// tree that is not clean is `WorkTreeDirty`, and the tool is not asked to split
    /// anything. Where the tool fails: `Failure` with what it printed as its error and
    /// its exit code, 1 where it was ended by a signal.
    ///
    /// Asks for the call that tells whether the working tree is clean, then for the call
    /// that splits. It is a violation where either cannot be made.
    pub fn subtree_split(&self, prefix: &str, told: &[Answer]) -> (step: Step<
        Result<(), SubtreeSplitError>,
    >)
        ensures
            if told@.len() == 0 {
                asks(step, self@.diff_call())
            } else {
                match told@[0] {
                    Answer::Ran(probe) => if !probe@.success() {
                        step matches Step::Done(Err(SubtreeSplitError::WorkTreeDirty))
                    } else if told@.len() == 1 {
                        asks(step, self@.subtree_split_call(prefix@))
                    } else {
                        match told@[1] {
                            Answer::Ran(outcome) => if outcome@.success() {
                                step matches Step::Done(Ok(()))
                            } else {
                                step matches Step::Done(
                                    Err(SubtreeSplitError::Failure(text, code)),
                                ) && text@ == lossy_text(outcome@.stderr) && code
                                    == outcome@.code_or_one()
                            },
                            Answer::Failed(_) => fatal(step, Violation::Launch),
                            _ => fatal(step, Violation::Answer),
                        }
                    },
                    Answer::Failed(_) => fatal(step, Violation::Launch),
                    _ => fatal(step, Violation::Answer),
                }
            },
    {
        match self.is_clean(told) {
            Step::Ask(query) => {
                return Step::Ask(query);
            },
            Step::Fatal(violation) => {
                return Step::Fatal(violation);
            },
            Step::Done(clean) => {
                if !clean {
                    return Step::Done(Err(SubtreeSplitError::WorkTreeDirty));
                }
            },
        }
        if told.len() == 1 {
            return Step::Ask(
                Query::Run(
                    self.git().arg("subtree").arg("split").arg("-P").arg(prefix).arg(
                        "--rejoin",
                    ).arg("HEAD"),
                ),
            );
        }
        match &told[1] {
            Answer::Ran(outcome) => {
                if outcome.success() {
                    Step::Done(Ok(()))
                } else {
                    Step::Done(
                        Err(
                            SubtreeSplitError::Failure(
                                lossy(outcome.stderr.as_slice()),
                                outcome.code_or_one(),
                            ),
                        ),
                    )
                }
            },
            Answer::Failed(_) => Step::Fatal(Violation::Launch),
            _ => Step::Fatal(Violation::Answer),
        }
    }

    /// Pulls the reference `git_ref` of `remote` into the subtree in the directory
    /// `prefix`. A working tree that is not clean is `WorkTreeDirty`, and the tool is not
    /// asked to pull anything. Where the tool fails: `Failure` with what it printed as
    /// its error and its exit code, 1 where it was ended by a signal.
    ///
    /// Asks for the call that tells whether the working tree is clean, then for the call
    /// that pulls. It is a violation where either cannot be made.
    pub fn subtree_pull(
        &self,
        remote: &str,
        prefix: &str,
        git_ref: &str,
        message: &str,
        told: &[Answer],
    ) -> (step: Step<Result<(), SubtreePullError>>)
        ensures
            if told@.len() == 0 {
                asks(step, self@.diff_call())
            } else {
                match told@[0] {
                    Answer::Ran(probe) => if !probe@.success() {
                        step matches Step::Done(Err(SubtreePullError::WorkTreeDirty))
                    } else if told@.len() == 1 {
                        asks(step, self@.subtree_pull_call(remote@, prefix@, git_ref@, message@))
                    } else {
                        match told@[1] {
                            Answer::Ran(outcome) => if outcome@.success() {
                                step matches Step::Done(Ok(()))
                            } else {
                                step matches Step::Done(
                                    Err(SubtreePullError::Failure(text, code)),
                                ) && text@ == lossy_text(outcome@.stderr) && code
                                    == outcome@.code_or_one()
                            },
                            Answer::Failed(_) => fatal(step, Violation::Launch),
                            _ => fatal(step, Violation::Answer),
                        }
                    },
                    Answer::Failed(_) => fatal(step, Violation::Launch),
                    _ => fatal(step, Violation::Answer),
                }
            },
    {
        match self.is_clean(told) {
            Step::Ask(query) => {
                return Step::Ask(query);
            },
            Step::Fatal(violation) => {
                return Step::Fatal(violation);
            },
            Step::Done(clean) => {
                if !clean {
                    return Step::Done(Err(SubtreePullError::WorkTreeDirty));
                }
            },
        }
        if told.len() == 1 {
            return Step::Ask(
                Query::Run(
                    self.git().arg("subtree").arg("pull").arg("-q").arg("-P").arg(prefix).arg(
                        remote,
                    ).arg(git_ref).arg("-m").arg(message),
                ),
            );
        }
        match &told[1] {
            Answer::Ran(outcome) => {
                if outcome.success() {
                    Step::Done(Ok(()))
                } else {
                    Step::Done(
                        Err(
                            SubtreePullError::Failure(
                                lossy(outcome.stderr.as_slice()),
                                outcome.code_or_one(),
                            ),
                        ),
                    )
                }
            },
            Answer::Failed(_) => Step::Fatal(Violation::Launch),
            _ => Step::Fatal(Violation::Answer),
        }
    }

    /// Pushes the subtree in the directory `prefix` to the reference `git_ref` of
    /// `remote`. Where the tool fails: `Failure` with what it printed as its error and
    /// its exit code, 1 where it was ended by a signal.
    ///
    /// Asks for one call. It is a violation where the call cannot be made.
    pub fn subtree_push(&self, remote: &str, prefix: &str, git_ref: &str, told: &[Answer]) -> (step:
        Step<Result<(), SubtreePushError>>)
        ensures
            if told@.len() == 0 {
                asks(step, self@.subtree_push_call(remote@, prefix@, git_ref@))
            } else {
                match told@[0] {
                    Answer::Ran(outcome) => if outcome@.success() {
                        step matches Step::Done(Ok(()))
                    } else {
                        step matches Step::Done(Err(SubtreePushError::Failure(text, code)))
                            && text@ == lossy_text(outcome@.stderr) && code
                            == outcome@.code_or_one()
                    },
                    Answer::Failed(_) => fatal(step, Violation::Launch),
                    _ => fatal(step, Violation::Answer),
                }
            },
    {
        if told.len() == 0 {
            return Step::Ask(
                Query::Run(
                    self.git().arg("subtree").arg("push").arg("-q").arg("-P").arg(prefix).arg(
                        remote,
                    ).arg(git_ref),
                ),
            );
        }
        match &told[0] {
            Answer::Ran(outcome) => {
                if outcome.success() {
                    Step::Done(Ok(()))
                } else {
                    Step::Done(
                        Err(
                            SubtreePushError::Failure(
                                lossy(outcome.stderr.as_slice()),
                                outcome.code_or_one(),
                            ),
                        ),
                    )
                }
            },
            Answer::Failed(_) => Step::Fatal(Violation::Launch),
            _ => Step::Fatal(Violation::Answer),
        }
    }
}

} // verus!

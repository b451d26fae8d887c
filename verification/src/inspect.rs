//! What can be asked of a repository without changing it.

use crate::error::{InvalidCommitishError, InvalidRefError, RefSearchError};
use crate::exchange::{
    asks,
    fatal,
    owned,
    Answer,
    InvocationView,
    Query,
    QueryView,
    Step,
    Violation,
};
use crate::path::{join, path_join};
use crate::repository::{Repository, RepositoryView};
use crate::text::{
    after,
    after_first,
    first_line,
    first_line_of,
    lossy,
    lossy_text,
    names,
    object_id,
    object_id_of,
    texts,
    trim,
    trim_end,
    trimmed,
    trimmed_end,
};
use vstd::prelude::*;

verus! {

impl RepositoryView {
    /// The call that tells whether the working tree differs from the last commit.
    pub open spec fn diff_call(self) -> InvocationView {
        self.git().arg("diff"@).arg("--quiet"@).arg("HEAD"@)
    }

    /// The file whose presence makes the checkout sparse.
    pub open spec fn sparse_checkout_file(self) -> Seq<char> {
        path_join(path_join(self.git_dir, "info"@), "sparse-checkout"@)
    }
}

impl Repository {
    /// Whether the working tree holds no change against the last commit: the tool says so
    /// by succeeding.
    ///
    /// Asks for one call. It is a violation where the call cannot be made.
    pub fn is_clean(&self, told: &[Answer]) -> (step: Step<bool>)
        ensures
            if told@.len() == 0 {
                asks(step, self@.diff_call())
            } else {
                match told@[0] {
                    Answer::Ran(outcome) => step matches Step::Done(clean) && clean
                        == outcome@.success(),
                    Answer::Failed(_) => fatal(step, Violation::Launch),
                    _ => fatal(step, Violation::Answer),
                }
            },
    {
        if told.len() == 0 {
            return Step::Ask(Query::Run(self.git().arg("diff").arg("--quiet").arg("HEAD")));
        }
        match &told[0] {
            Answer::Ran(outcome) => Step::Done(outcome.success()),
            Answer::Failed(_) => Step::Fatal(Violation::Launch),
            _ => Step::Fatal(Violation::Answer),
        }
    }

    /// The identifier of the commit that `HEAD` names: what the tool prints, without the
    /// white space around it.
    ///
    /// Asks for one call. It is a violation where the call cannot be made or fails.
    pub fn head(&self, told: &[Answer]) -> (step: Step<String>)
        ensures
            if told@.len() == 0 {
                asks(step, self@.git().arg("rev-parse"@).arg("HEAD"@))
            } else {
                match told@[0] {
                    Answer::Ran(outcome) => if outcome@.success() {
                        step matches Step::Done(id) && id@ == trim(lossy_text(outcome@.stdout))
                    } else {
                        fatal(step, Violation::Status)
                    },
                    Answer::Failed(_) => fatal(step, Violation::Launch),
                    _ => fatal(step, Violation::Answer),
                }
            },
    {
        if told.len() == 0 {
            return Step::Ask(Query::Run(self.git().arg("rev-parse").arg("HEAD")));
        }
        match &told[0] {
            Answer::Ran(outcome) => {
                if outcome.success() {
                    let text = lossy(outcome.stdout.as_slice());
                    Step::Done(trimmed(text.as_str()))
                } else {
                    Step::Fatal(Violation::Status)
                }
            },
            Answer::Failed(_) => Step::Fatal(Violation::Launch),
            _ => Step::Fatal(Violation::Answer),
        }
    }

    /// Whether the checkout is sparse: whether the metadata directory holds the file
    /// `info/sparse-checkout`.
    ///
    /// Asks whether that file exists.
    pub fn is_sparse(&self, told: &[Answer]) -> (step: Step<bool>)
        ensures
            if told@.len() == 0 {
                step matches Step::Ask(query) && query@ == QueryView::Exists(
                    self@.sparse_checkout_file(),
                )
            } else {
                match told@[0] {
                    Answer::Flag(exists) => step matches Step::Done(sparse) && sparse == exists,
                    _ => fatal(step, Violation::Answer),
                }
            },
    {
        if told.len() == 0 {
            let info = join(self.git_dir_path(), "info");
            return Step::Ask(Query::Exists(join(info.as_str(), "sparse-checkout")));
        }
        match &told[0] {
            Answer::Flag(exists) => Step::Done(*exists),
            _ => Step::Fatal(Violation::Answer),
        }
    }

    /// The short form of the reference `long_ref`: what the tool prints where it
    /// succeeds, without the white space at its end, and `InvalidRefError` with the
    /// reference where it fails.
    ///
    /// Asks for one call. It is a violation where the call cannot be made.
    pub fn short_ref(&self, long_ref: &str, told: &[Answer]) -> (step: Step<
        Result<String, InvalidRefError>,
    >)
        ensures
            if told@.len() == 0 {
                asks(step, self@.git().arg("rev-parse"@).arg("--short"@).arg(long_ref@))
            } else {
                match told@[0] {
                    Answer::Ran(outcome) => if outcome@.success() {
                        step matches Step::Done(Ok(short)) && short@ == trim_end(
                            lossy_text(outcome@.stdout),
                        )
                    } else {
                        step matches Step::Done(Err(error)) && error.0@ == long_ref@
                    },
                    Answer::Failed(_) => fatal(step, Violation::Launch),
                    _ => fatal(step, Violation::Answer),
                }
            },
    {
        if told.len() == 0 {
            return Step::Ask(
                Query::Run(self.git().arg("rev-parse").arg("--short").arg(long_ref)),
            );
        }
        match &told[0] {
            Answer::Ran(outcome) => {
                if outcome.success() {
                    let text = lossy(outcome.stdout.as_slice());
                    Step::Done(Ok(trimmed_end(text.as_str())))
                } else {
                    Step::Done(Err(InvalidRefError(long_ref.to_owned())))
                }
            },
            Answer::Failed(_) => Step::Fatal(Violation::Launch),
            _ => Step::Fatal(Violation::Answer),
        }
    }

    /// Whether the commit `first` is an ancestor of the commit `second`: the tool says so
    /// by succeeding.
    ///
    /// Asks for one call. It is a violation where the call cannot be made.
    pub fn is_ancestor(&self, first: &str, second: &str, told: &[Answer]) -> (step: Step<bool>)
        ensures
            if told@.len() == 0 {
                asks(
                    step,
                    self@.git().arg("merge-base"@).arg("--is-ancestor"@).arg(first@).arg(second@),
                )
            } else {
                match told@[0] {
                    Answer::Ran(outcome) => step matches Step::Done(yes) && yes
                        == outcome@.success(),
                    Answer::Failed(_) => fatal(step, Violation::Launch),
                    _ => fatal(step, Violation::Answer),
                }
            },
    {
        if told.len() == 0 {
            return Step::Ask(
                Query::Run(
                    self.git().arg("merge-base").arg("--is-ancestor").arg(first).arg(second),
                ),
            );
        }
        match &told[0] {
            Answer::Ran(outcome) => Step::Done(outcome.success()),
            Answer::Failed(_) => Step::Fatal(Violation::Launch),
            _ => Step::Fatal(Violation::Answer),
        }
    }

    /// The best common ancestor of the commits `ids`. Where the tool succeeds, it is what
    /// the tool prints, without the white space at its end, and `None` where the tool
    /// prints nothing. Exit code 1 says that there is none. Exit code 128 says that one
    /// of `ids` or more name no commit: `Multiple` with all of `ids`.
    ///
    /// Asks for one call. It is a violation where the call cannot be made, and where it
    /// ends with another exit code or by a signal.
    pub fn merge_base(&self, ids: &[&str], told: &[Answer]) -> (step: Step<
        Result<Option<String>, InvalidCommitishError>,
    >)
        ensures
            if told@.len() == 0 {
                asks(step, self@.git().arg("merge-base"@).args(names(ids@)))
            } else {
                match told@[0] {
                    Answer::Ran(outcome) => match outcome@.code {
                        Some(0) => if lossy_text(outcome@.stdout).len() == 0 {
                            step matches Step::Done(Ok(None))
                        } else {
                            step matches Step::Done(Ok(Some(id))) && id@ == trim_end(
                                lossy_text(outcome@.stdout),
                            )
                        },
                        Some(1) => step matches Step::Done(Ok(None)),
                        Some(128) => step matches Step::Done(
                            Err(InvalidCommitishError::Multiple(all)),
                        ) && texts(all@) == names(ids@),
                        _ => fatal(step, Violation::Status),
                    },
                    Answer::Failed(_) => fatal(step, Violation::Launch),
                    _ => fatal(step, Violation::Answer),
                }
            },
    {
        if told.len() == 0 {
            return Step::Ask(Query::Run(self.git().arg("merge-base").args(ids)));
        }
        match &told[0] {
            Answer::Ran(outcome) => match outcome.code {
                Some(0) => {
                    let text = lossy(outcome.stdout.as_slice());
                    if text.as_str().is_empty() {
                        Step::Done(Ok(None))
                    } else {
                        Step::Done(Ok(Some(trimmed_end(text.as_str()))))
                    }
                },
                Some(1) => Step::Done(Ok(None)),
                Some(128) => Step::Done(Err(InvalidCommitishError::Multiple(owned(ids)))),
                _ => Step::Fatal(Violation::Status),
            },
            Answer::Failed(_) => Step::Fatal(Violation::Launch),
            _ => Step::Fatal(Violation::Answer),
        }
    }

    /// The identifier of the object that the reference `git_ref` names on `remote`: what
    /// stands before the first tab in the first line that the tool prints. Where that
    /// line holds no tab, it is no line of a listing: `ParsingFailure` with the line.
    /// Where the tool prints no line, the remote has no such reference: `NotFound` with
    /// `git_ref`. Where the tool fails, the remote was not reached: `Failure` with what
    /// the tool printed as its error. Where the call cannot be made: `IOError`.
    ///
    /// Asks for one call.
    pub fn remote_ref_to_id(&self, remote: &str, git_ref: &str, told: &[Answer]) -> (step: Step<
        Result<String, RefSearchError>,
    >)
        ensures
            if told@.len() == 0 {
                asks(step, self@.git().arg("ls-remote"@).arg(remote@).arg(git_ref@))
            } else {
                match told@[0] {
                    Answer::Ran(outcome) => if !outcome@.success() {
                        step matches Step::Done(Err(RefSearchError::Failure(text))) && text@
                            == lossy_text(outcome@.stderr)
                    } else {
                        match first_line(lossy_text(outcome@.stdout)) {
                            Some(line) => if after(line, '\t').is_some() {
                                step matches Step::Done(Ok(id)) && id@ == object_id(line)
                            } else {
                                step matches Step::Done(
                                    Err(RefSearchError::ParsingFailure(kept)),
                                ) && kept@ == line
                            },
                            None => step matches Step::Done(Err(RefSearchError::NotFound(name)))
                                && name@ == git_ref@,
                        }
                    },
                    Answer::Failed(error) => step matches Step::Done(
                        Err(RefSearchError::IOError(kept)),
                    ) && kept == error,
                    _ => fatal(step, Violation::Answer),
                }
            },
    {
        if told.len() == 0 {
            return Step::Ask(Query::Run(self.git().arg("ls-remote").arg(remote).arg(git_ref)));
        }
        match &told[0] {
            Answer::Ran(outcome) => {
                if !outcome.success() {
                    return Step::Done(
                        Err(RefSearchError::Failure(lossy(outcome.stderr.as_slice()))),
                    );
                }
                let text = lossy(outcome.stdout.as_slice());
                match first_line_of(text.as_str()) {
                    Some(line) => match after_first(line.as_str(), '\t') {
                        Some(_) => Step::Done(Ok(object_id_of(line.as_str()))),
                        None => Step::Done(Err(RefSearchError::ParsingFailure(line))),
                    },
                    None => Step::Done(Err(RefSearchError::NotFound(git_ref.to_owned()))),
                }
            },
            Answer::Failed(error) => Step::Done(Err(RefSearchError::IOError(error.clone()))),
            _ => Step::Fatal(Violation::Answer),
        }
    }
}

} // verus!

//! Making a repository, and making a path absolute.

use crate::bare_repo::BareRepository;
use crate::error::{RepoError, RepoErrorView};
use crate::exchange::{asks, fatal, Answer, InvocationView, Invocation, Query, QueryView, Step, Violation};
use crate::path::{dot_git, is_absolute, join, path_is_absolute, path_join, AbsoluteDirPath};
use crate::repository::{Repository, RepositoryView};
use crate::resolve::accepted;
use crate::text::{lossy, lossy_text};
use vstd::prelude::*;

verus! {

/// What the rule for paths makes of a path and of the answer that stands for it.
pub enum Ruled {
    /// The path is relative, and its canonical form is yet to be asked for.
    Ask,
    /// This is the absolute path: the one given, or the canonical form of it.
    Path(Seq<char>),
    /// The path is relative and has no canonical form.
    Missing,
    /// The answer is no text.
    Mismatch,
}

/// The rule for paths: an absolute path is taken as it is, and a relative one stands for
/// its canonical form, which the answer at `at` gives.
pub open spec fn ruled(value: Seq<char>, told: Seq<Answer>, at: int) -> Ruled {
    if path_is_absolute(value) {
        Ruled::Path(value)
    } else if told.len() <= at {
        Ruled::Ask
    } else {
        match told[at] {
            Answer::Text(_) => match accepted(told[at]@) {
                Some(path) => Ruled::Path(path),
                None => Ruled::Missing,
            },
            _ => Ruled::Mismatch,
        }
    }
}

/// How many answers the rule takes for `value`.
pub open spec fn answers_taken(value: Seq<char>) -> int {
    if path_is_absolute(value) {
        0
    } else {
        1
    }
}

enum Rule {
    Ask,
    Path(AbsoluteDirPath),
    Missing,
    Mismatch,
}

fn rule(value: &str, told: &[Answer], at: usize) -> (made: Rule)
    ensures
        match made {
            Rule::Ask => ruled(value@, told@, at as int) == Ruled::Ask,
            Rule::Path(path) => ruled(value@, told@, at as int) == Ruled::Path(path@),
            Rule::Missing => ruled(value@, told@, at as int) == Ruled::Missing,
            Rule::Mismatch => ruled(value@, told@, at as int) == Ruled::Mismatch,
        },
{
    match AbsoluteDirPath::new(value.to_owned()) {
        Ok(path) => Rule::Path(path),
        Err(_) => {
            if told.len() <= at {
                return Rule::Ask;
            }
            match &told[at] {
                Answer::Text(Some(text)) => match AbsoluteDirPath::new(text.clone()) {
                    Ok(path) => Rule::Path(path),
                    Err(_) => Rule::Missing,
                },
                Answer::Text(None) => Rule::Missing,
                _ => Rule::Mismatch,
            }
        },
    }
}

impl AbsoluteDirPath {
    /// `value` as an absolute path: `value` itself where it is absolute, else its
    /// canonical form. A relative path without a canonical form is an `AbsolutionError`.
    ///
    /// Asks for the canonical form of a relative `value`.
    pub fn try_from(value: &str, told: &[Answer]) -> (step: Step<Result<AbsoluteDirPath, RepoError>>)
        ensures
            match ruled(value@, told@, 0) {
                Ruled::Ask => step matches Step::Ask(query) && query@ == QueryView::Canonical(
                    value@,
                ),
                Ruled::Path(path) => step matches Step::Done(Ok(made)) && made@ == path,
                Ruled::Missing => step matches Step::Done(Err(error)) && error@
                    == RepoErrorView::AbsolutionError(value@),
                Ruled::Mismatch => fatal(step, Violation::Answer),
            },
    {
        match rule(value, told, 0) {
            Rule::Ask => Step::Ask(Query::Canonical(value.to_owned())),
            Rule::Path(path) => Step::Done(Ok(path)),
            Rule::Missing => Step::Done(Err(RepoError::AbsolutionError(value.to_owned()))),
            Rule::Mismatch => Step::Fatal(Violation::Answer),
        }
    }
}

/// The call that makes a repository in the directory `path`: with a working tree, or
/// bare.
pub open spec fn init_call(path: Seq<char>, bare: bool) -> InvocationView {
    if bare {
        InvocationView::new("git"@).arg("init"@).arg("--bare"@).current_dir(path)
    } else {
        InvocationView::new("git"@).arg("init"@).current_dir(path)
    }
}

impl BareRepository {
    /// Makes a bare repository in the directory `path`, which becomes its metadata
    /// directory. Where the tool fails, the failure is what it printed as its error;
    /// where `path` is relative and has no canonical form, what that `AbsolutionError`
    /// says.
    ///
    /// Asks for one call, and then for the canonical form of a relative `path`. It is a
    /// violation where the call cannot be made.
    pub fn create(path: &str, told: &[Answer]) -> (step: Step<Result<BareRepository, String>>)
        ensures
            if told@.len() == 0 {
                asks(step, init_call(path@, true))
            } else {
                match told@[0] {
                    Answer::Ran(outcome) => if !outcome@.success() {
                        step matches Step::Done(Err(text)) && text@ == lossy_text(
                            outcome@.stderr,
                        )
                    } else {
                        match ruled(path@, told@, 1) {
                            Ruled::Ask => step matches Step::Ask(query) && query@
                                == QueryView::Canonical(path@),
                            Ruled::Path(git_dir) => step matches Step::Done(Ok(repo)) && repo@
                                == git_dir,
                            Ruled::Missing => step matches Step::Done(Err(text)) && text@
                                == RepoErrorView::AbsolutionError(path@).message(),
                            Ruled::Mismatch => fatal(step, Violation::Answer),
                        }
                    },
                    Answer::Failed(_) => fatal(step, Violation::Launch),
                    _ => fatal(step, Violation::Answer),
                }
            },
    {
        if told.len() == 0 {
            return Step::Ask(
                Query::Run(Invocation::new("git").arg("init").arg("--bare").current_dir(path)),
            );
        }
        match &told[0] {
            Answer::Ran(outcome) => {
                if !outcome.success() {
                    return Step::Done(Err(lossy(outcome.stderr.as_slice())));
                }
                match rule(path, told, 1) {
                    Rule::Ask => Step::Ask(Query::Canonical(path.to_owned())),
                    Rule::Path(git_dir) => Step::Done(Ok(BareRepository::new(git_dir))),
                    Rule::Missing => Step::Done(
                        Err(RepoError::AbsolutionError(path.to_owned()).to_string()),
                    ),
                    Rule::Mismatch => Step::Fatal(Violation::Answer),
                }
            },
            Answer::Failed(_) => Step::Fatal(Violation::Launch),
            _ => Step::Fatal(Violation::Answer),
        }
    }
}

impl Repository {
    /// Makes a repository in the directory `path`, which becomes its working tree; the
    /// metadata directory is the entry `.git` of `path`. Where the tool fails, the
    /// failure is what it printed as its error.
    ///
    /// Asks for one call, and then for the canonical form of each of the two
    /// directories that is relative. It is a violation where the call cannot be made,
    /// and where one of the two directories has no canonical form after the tool has
    /// made them.
    pub fn create(path: &str, told: &[Answer]) -> (step: Step<Result<Repository, String>>)
        ensures
            if told@.len() == 0 {
                asks(step, init_call(path@, false))
            } else {
                match told@[0] {
                    Answer::Ran(outcome) => if !outcome@.success() {
                        step matches Step::Done(Err(text)) && text@ == lossy_text(
                            outcome@.stderr,
                        )
                    } else {
                        match ruled(path@, told@, 1) {
                            Ruled::Ask => step matches Step::Ask(query) && query@
                                == QueryView::Canonical(path@),
                            Ruled::Path(work_tree) => match ruled(
                                path_join(path@, dot_git()),
                                told@,
                                1 + answers_taken(path@),
                            ) {
                                Ruled::Ask => step matches Step::Ask(query) && query@
                                    == QueryView::Canonical(path_join(path@, dot_git())),
                                Ruled::Path(git_dir) => step matches Step::Done(Ok(repo)) && repo@
                                    == (RepositoryView { git_dir, work_tree }),
                                Ruled::Missing => fatal(step, Violation::Path),
                                Ruled::Mismatch => fatal(step, Violation::Answer),
                            },
                            Ruled::Missing => fatal(step, Violation::Path),
                            Ruled::Mismatch => fatal(step, Violation::Answer),
                        }
                    },
                    Answer::Failed(_) => fatal(step, Violation::Launch),
                    _ => fatal(step, Violation::Answer),
                }
            },
    {
        if told.len() == 0 {
            return Step::Ask(Query::Run(Invocation::new("git").arg("init").current_dir(path)));
        }
        match &told[0] {
            Answer::Ran(outcome) => {
                if !outcome.success() {
                    return Step::Done(Err(lossy(outcome.stderr.as_slice())));
                }
                let work_tree = match rule(path, told, 1) {
                    Rule::Ask => {
                        return Step::Ask(Query::Canonical(path.to_owned()));
                    },
                    Rule::Path(work_tree) => work_tree,
                    Rule::Missing => {
                        return Step::Fatal(Violation::Path);
                    },
                    Rule::Mismatch => {
                        return Step::Fatal(Violation::Answer);
                    },
                };
                let at: usize = if is_absolute(path) {
                    1
                } else {
                    2
                };
                let inside = join(path, ".git");
                match rule(inside.as_str(), told, at) {
                    Rule::Ask => Step::Ask(Query::Canonical(inside)),
                    Rule::Path(git_dir) => Step::Done(Ok(Repository::new(git_dir, work_tree))),
                    Rule::Missing => Step::Fatal(Violation::Path),
                    Rule::Mismatch => Step::Fatal(Violation::Answer),
                }
            },
            Answer::Failed(_) => Step::Fatal(Violation::Launch),
            _ => Step::Fatal(Violation::Answer),
        }
    }
}

} // verus!

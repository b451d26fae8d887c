//! Operations that may still change.

use crate::error::{code_of, message_of};
use crate::exchange::{asks, fatal, Answer, Query, Step, Violation};
use crate::repository::Repository;
use crate::text::{lossy, lossy_text};
use posix_errors::PosixError;
use vstd::prelude::*;

verus! {

/// Sets the branch, the index and the working tree of `repo` to the commit `sha`. Where
/// the tool fails, the failure has its exit code, 1 where it was ended by a signal, and
/// what it printed as its error.
///
/// Asks for one call. It is a violation where the call cannot be made.
pub fn reset_hard(repo: &Repository, sha: &str, told: &[Answer]) -> (step: Step<
    Result<(), PosixError>,
>)
    ensures
        if told@.len() == 0 {
            asks(step, repo@.git().arg("reset"@).arg("--hard"@).arg("--quiet"@).arg(sha@))
        } else {
            match told@[0] {
                Answer::Ran(outcome) => if outcome@.success() {
                    step matches Step::Done(Ok(()))
                } else {
                    step matches Step::Done(Err(error)) && code_of(error)
                        == outcome@.code_or_one() && message_of(error) == lossy_text(
                        outcome@.stderr,
                    )
                },
                Answer::Failed(_) => fatal(step, Violation::Launch),
                _ => fatal(step, Violation::Answer),
            }
        },
{
    if told.len() == 0 {
        return Step::Ask(
            Query::Run(repo.git().arg("reset").arg("--hard").arg("--quiet").arg(sha)),
        );
    }
    match &told[0] {
        Answer::Ran(outcome) => {
            if outcome.success() {
                Step::Done(Ok(()))
            } else {
                Step::Done(
                    Err(PosixError::new(outcome.code_or_one(), lossy(outcome.stderr.as_slice()))),
                )
            }
        },
        Answer::Failed(_) => Step::Fatal(Violation::Launch),
        _ => Step::Fatal(Violation::Answer),
    }
}

} // verus!

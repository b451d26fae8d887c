//! What a remote lists, asked without a repository.

use crate::error::{code_of, message_of};
use crate::exchange::{
    asks,
    fatal,
    Answer,
    Invocation,
    InvocationView,
    Outcome,
    Query,
    Step,
    Violation,
};
use crate::text::{
    first_line,
    first_line_of,
    listed,
    lossy_text,
    maybe,
    names,
    object_id,
    object_id_of,
    reference_name,
    reference_name_of,
    reference_names,
    reference_names_of,
    strict,
    texts,
};
use posix_errors::PosixError;
use vstd::prelude::*;
use vstd::utf8::{decode_utf8, valid_utf8};

verus! {

/// The call that lists a remote, with the arguments `args`.
pub open spec fn ls_remote_call(args: Seq<Seq<char>>) -> InvocationView {
    InvocationView::new("git"@).arg("ls-remote"@).args(args)
}

/// The default branch that the first line of `text` names: the line is cut at its first
/// tab, and the branch is the name of the reference in what stands before.
pub open spec fn default_branch(text: Seq<char>) -> Option<Seq<char>> {
    match first_line(text) {
        Some(line) => reference_name(object_id(line)),
        None => None,
    }
}

/// The default branch that the first line of `text` names.
pub fn default_branch_of(text: &str) -> (branch: Option<String>)
    ensures
        maybe(branch) == default_branch(text@),
{
    match first_line_of(text) {
        Some(line) => {
            let head = object_id_of(line.as_str());
            reference_name_of(head.as_str())
        },
        None => None,
    }
}

/// Lists a remote, with the arguments `args`: how the call ended, whether it succeeded
/// or not. A call that cannot be made is the failure.
///
/// Asks for one call.
pub fn ls_remote(args: &[&str], told: &[Answer]) -> (step: Step<Result<Outcome, PosixError>>)
    ensures
        if told@.len() == 0 {
            asks(step, ls_remote_call(names(args@)))
        } else {
            match told@[0] {
                Answer::Ran(outcome) => step matches Step::Done(Ok(same)) && same@ == outcome@,
                Answer::Failed(error) => step matches Step::Done(Err(same)) && same == error,
                _ => fatal(step, Violation::Answer),
            }
        },
{
    if told.len() == 0 {
        return Step::Ask(Query::Run(Invocation::new("git").arg("ls-remote").args(args)));
    }
    match &told[0] {
        Answer::Ran(outcome) => Step::Done(Ok(outcome.clone())),
        Answer::Failed(error) => Step::Done(Err(error.clone())),
        _ => Step::Fatal(Violation::Answer),
    }
}

/// The tags of the repository at `url`: of each line that the tool lists, what stands
/// behind the second slash. Where the tool fails, the failure has its exit code and what
/// it printed as its error; a call that cannot be made is the failure.
///
/// Asks for one call. It is a violation where the call succeeds and prints what is not
/// UTF-8.
pub fn tags_from_remote(url: &str, told: &[Answer]) -> (step: Step<
    Result<Vec<String>, PosixError>,
>)
    ensures
        if told@.len() == 0 {
            asks(step, ls_remote_call(seq!["--refs"@, "--tags"@, url@]))
        } else {
            match told@[0] {
                Answer::Ran(outcome) => if !outcome@.success() {
                    step matches Step::Done(Err(error)) && code_of(error)
                        == outcome@.failure_code() && message_of(error) == lossy_text(
                        outcome@.stderr,
                    )
                } else if valid_utf8(outcome@.stdout) {
                    step matches Step::Done(Ok(tags)) && texts(tags@) == reference_names(
                        listed(decode_utf8(outcome@.stdout)),
                    )
                } else {
                    fatal(step, Violation::Output)
                },
                Answer::Failed(error) => step matches Step::Done(Err(same)) && same == error,
                _ => fatal(step, Violation::Answer),
            }
        },
{
    if told.len() == 0 {
        let call = Invocation::new("git").arg("ls-remote").arg("--refs").arg("--tags").arg(url);
        assert(call@.args =~= ls_remote_call(seq!["--refs"@, "--tags"@, url@]).args);
        return Step::Ask(Query::Run(call));
    }
    match &told[0] {
        Answer::Ran(outcome) => {
            if !outcome.success() {
                return Step::Done(Err(outcome.to_posix()));
            }
            match strict(outcome.stdout.as_slice()) {
                Some(text) => Step::Done(Ok(reference_names_of(text.as_str()))),
                None => Step::Fatal(Violation::Output),
            }
        },
        Answer::Failed(error) => Step::Done(Err(error.clone())),
        _ => Step::Fatal(Violation::Answer),
    }
}

/// The default branch of `remote`. Where the tool fails, the failure has its exit code and
/// what it printed as its error.
///
/// Asks for one call. It is a violation where the call cannot be made, and where it
/// succeeds and prints what is not UTF-8 or names no branch in its first line.
pub fn resolve_head(remote: &str, told: &[Answer]) -> (step: Step<Result<String, PosixError>>)
    ensures
        if told@.len() == 0 {
            asks(step, ls_remote_call(seq!["--symref"@, remote@, "HEAD"@]))
        } else {
            match told@[0] {
                Answer::Ran(outcome) => if !outcome@.success() {
                    step matches Step::Done(Err(error)) && code_of(error)
                        == outcome@.failure_code() && message_of(error) == lossy_text(
                        outcome@.stderr,
                    )
                } else if valid_utf8(outcome@.stdout) {
                    match default_branch(decode_utf8(outcome@.stdout)) {
                        Some(branch) => step matches Step::Done(Ok(name)) && name@ == branch,
                        None => fatal(step, Violation::Output),
                    }
                } else {
                    fatal(step, Violation::Output)
                },
                Answer::Failed(_) => fatal(step, Violation::Launch),
                _ => fatal(step, Violation::Answer),
            }
        },
{
    if told.len() == 0 {
        let call = Invocation::new("git").arg("ls-remote").arg("--symref").arg(remote).arg("HEAD");
        assert(call@.args =~= ls_remote_call(seq!["--symref"@, remote@, "HEAD"@]).args);
        return Step::Ask(Query::Run(call));
    }
    match &told[0] {
        Answer::Ran(outcome) => {
            if !outcome.success() {
                return Step::Done(Err(outcome.to_posix()));
            }
            match strict(outcome.stdout.as_slice()) {
                Some(text) => match default_branch_of(text.as_str()) {
                    Some(name) => Step::Done(Ok(name)),
                    None => Step::Fatal(Violation::Output),
                },
                None => Step::Fatal(Violation::Output),
            }
        },
        Answer::Failed(_) => Step::Fatal(Violation::Launch),
        _ => Step::Fatal(Violation::Answer),
    }
}

} // verus!

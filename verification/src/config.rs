//! Changing a configuration file.

use crate::error::ConfigSetError;
use crate::exchange::{asks, fatal, Answer, Invocation, InvocationView, Query, Step, Violation};
use crate::text::strict;
use vstd::prelude::*;
use vstd::utf8::{decode_utf8, valid_utf8};

verus! {

/// The call that sets `key` to `value` in the configuration file `file`.
pub open spec fn config_file_set_call(
    file: Seq<char>,
    key: Seq<char>,
    value: Seq<char>,
) -> InvocationView {
    InvocationView::new("git"@).arg("config"@).arg("--file"@).arg(file).arg(key).arg(value)
}

/// Sets `key` to `value` in the configuration file `file`. Where the tool fails, the
/// failure holds what the tool printed: with exit code 1 `InvalidSectionOrKey`, with 3
/// `InvalidConfigFile`, with 4 `WriteFailed`.
///
/// Asks for one call. It is a violation where the call cannot be made, where it fails
/// and prints what is not UTF-8, and where it ends with another exit code or by a
/// signal.
pub fn config_file_set(file: &str, key: &str, value: &str, told: &[Answer]) -> (step: Step<
    Result<(), ConfigSetError>,
>)
    ensures
        if told@.len() == 0 {
            asks(step, config_file_set_call(file@, key@, value@))
        } else {
            match told@[0] {
                Answer::Ran(outcome) => if outcome@.success() {
                    step matches Step::Done(Ok(()))
                } else if !valid_utf8(outcome@.stdout) {
                    fatal(step, Violation::Output)
                } else {
                    match outcome@.code {
                        Some(1) => step matches Step::Done(
                            Err(ConfigSetError::InvalidSectionOrKey(text)),
                        ) && text@ == decode_utf8(outcome@.stdout),
                        Some(3) => step matches Step::Done(
                            Err(ConfigSetError::InvalidConfigFile(text)),
                        ) && text@ == decode_utf8(outcome@.stdout),
                        Some(4) => step matches Step::Done(
                            Err(ConfigSetError::WriteFailed(text)),
                        ) && text@ == decode_utf8(outcome@.stdout),
                        _ => fatal(step, Violation::Status),
                    }
                },
                Answer::Failed(_) => fatal(step, Violation::Launch),
                _ => fatal(step, Violation::Answer),
            }
        },
{
    if told.len() == 0 {
        return Step::Ask(
            Query::Run(
                Invocation::new("git").arg("config").arg("--file").arg(file).arg(key).arg(value),
            ),
        );
    }
    match &told[0] {
        Answer::Ran(outcome) => {
            if outcome.success() {
                return Step::Done(Ok(()));
            }
            match strict(outcome.stdout.as_slice()) {
                None => Step::Fatal(Violation::Output),
                Some(text) => match outcome.code {
                    Some(1) => Step::Done(Err(ConfigSetError::InvalidSectionOrKey(text))),
                    Some(3) => Step::Done(Err(ConfigSetError::InvalidConfigFile(text))),
                    Some(4) => Step::Done(Err(ConfigSetError::WriteFailed(text))),
                    _ => Step::Fatal(Violation::Status),
                },
            }
        },
        Answer::Failed(_) => Step::Fatal(Violation::Launch),
        _ => Step::Fatal(Violation::Answer),
    }
}

} // verus!

//! What the operator gets to see of an outcome: an exit status, the secret on
//! standard output, or the errors on standard error. Never both.

use vstd::prelude::*;
use vstd::string::*;
use crate::error::{Failure, IssuanceError, IssuanceFailure, PipelineError};
use crate::pipeline::outcome_view;

verus! {

/// What a run of the tool leaves behind.
#[derive(Debug, PartialEq, Eq)]
pub struct Report {
    /// The status the process exits with: 0 on success, 1 on any failure.
    pub exit_code: i32,
    /// The line for standard output: the secret token, if one was issued.
    pub stdout: Option<String>,
    /// The lines for standard error, in the order they are printed.
    pub stderr: Vec<String>,
}

/// A report as a value of the model.
pub struct Account {
    pub exit_code: i32,
    pub stdout: Option<Seq<char>>,
    pub stderr: Seq<Seq<char>>,
}

impl View for Report {
    type V = Account;

    open spec fn view(&self) -> Account {
        Account {
            exit_code: self.exit_code,
            stdout: match self.stdout {
                Some(line) => Some(line@),
                None => None,
            },
            stderr: Seq::new(self.stderr@.len(), |i: int| self.stderr@[i]@),
        }
    }
}

/// The line that closes every failed run.
pub open spec fn final_line(failure: Failure) -> Seq<char> {
    "Error generating PAT: "@ + failure.message()
}

/// The line a stage prints on its own failure before the run is closed, if it
/// prints one: the credential stage and a rejected request do.
pub open spec fn stage_line(failure: Failure) -> Option<Seq<char>> {
    match failure {
        Failure::Credential { message } => Some("Failed to get Azure token: "@ + message),
        Failure::Issuance(IssuanceFailure::RequestRejected { status_code }) => Some(
            failure.message(),
        ),
        _ => None,
    }
}

/// The lines a failure puts on standard error.
pub open spec fn diagnostics(failure: Failure) -> Seq<Seq<char>> {
    match stage_line(failure) {
        Some(line) => seq![line, final_line(failure)],
        None => seq![final_line(failure)],
    }
}

/// The account of an outcome: a token goes to standard output with status 0
/// and nothing else; a failure goes to standard error with status 1.
pub open spec fn account(outcome: Result<Seq<char>, Failure>) -> Account {
    match outcome {
        Ok(token_value) => Account {
            exit_code: 0,
            stdout: Some(token_value),
            stderr: Seq::empty(),
        },
        Err(failure) => Account { exit_code: 1, stdout: None, stderr: diagnostics(failure) },
    }
}

/// Says what the operator is shown of `outcome`.
///
/// The secret is printed only on success, and then nothing is printed beside
/// it; on failure every line goes to standard error.
pub fn report(outcome: Result<String, PipelineError>) -> (shown: Report)
    ensures
        shown@ == account(outcome_view(outcome)),
        outcome is Err ==> shown.stdout is None && shown.exit_code == 1,
        outcome is Ok ==> shown.stderr@.len() == 0 && shown.exit_code == 0,
{
    match outcome {
        Ok(token_value) => {
            let shown = Report { exit_code: 0, stdout: Some(token_value), stderr: Vec::new() };
            assert(shown@.stderr =~= Seq::empty());
            shown
        },
        Err(error) => {
            let message = error.message();
            let mut stderr: Vec<String> = Vec::new();
            match &error {
                PipelineError::Credential(_) => {
                    stderr.push(String::from_str("Failed to get Azure token: ").concat(message.as_str()));
                },
                PipelineError::Issuance(IssuanceError::RequestRejected { .. }) => {
                    stderr.push(message.clone());
                },
                _ => {},
            }
            stderr.push(String::from_str("Error generating PAT: ").concat(message.as_str()));
            let shown = Report { exit_code: 1, stdout: None, stderr };
            assert(shown@.stderr =~= diagnostics(error@));
            shown
        },
    }
}

} // verus!

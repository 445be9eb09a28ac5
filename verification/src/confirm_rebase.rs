//! Confirm dialog for going ahead with the rebase: on `Yes` the process ends
//! with a `Good` exit status; the file content is left untouched.

use vstd::prelude::*;
use crate::input::Input;
use crate::process::{ExitStatus, ModuleResult, State};

verus! {

/// A single-state module that renders a yes/no prompt and maps the answer to a
/// terminal or continuation state.
#[derive(Debug)]
pub struct ConfirmRebase {}

impl ConfirmRebase {
    pub fn new() -> Self {
        ConfirmRebase {}
    }

    /// Interpret one confirmation input: `Yes` requests exiting with status
    /// `Good`; `No` requests the list state; any other input is reported
    /// unhandled.
    pub fn handle_input(&mut self, input: Input) -> (r: ModuleResult)
        ensures
            r.input == Some(input),
            r.error_message is None,
            r.error_resume is None,
            input == Input::Yes ==> r.state == Some(State::Exiting)
                && r.exit_status == Some(ExitStatus::Good),
            input == Input::No ==> r.state == Some(State::List) && r.exit_status is None,
            input != Input::Yes && input != Input::No ==> r.state is None
                && r.exit_status is None,
    {
        match input {
            Input::Yes => {
                ModuleResult {
                    input: Some(input),
                    state: Some(State::Exiting),
                    exit_status: Some(ExitStatus::Good),
                    error_message: None,
                    error_resume: None,
                }
            },
            Input::No => {
                ModuleResult {
                    input: Some(input),
                    state: Some(State::List),
                    exit_status: None,
                    error_message: None,
                    error_resume: None,
                }
            },
            _ => {
                ModuleResult {
                    input: Some(input),
                    state: None,
                    exit_status: None,
                    error_message: None,
                    error_resume: None,
                }
            },
        }
    }

    /// The fixed prompt this dialog shows.
    pub fn render(&self) -> (r: &'static str)
        ensures
            r@ == "Are you sure you want to rebase"@,
    {
        "Are you sure you want to rebase"
    }
}

} // verus!

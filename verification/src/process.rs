//! The uniform result every module call produces, and the symbolic outer
//! states and exit statuses it can request.

use vstd::prelude::*;
use crate::input::Input;

verus! {

/// The outer states a module can request a transition to.  The dispatcher that
/// owns the modules interprets them; modules never invoke one another.
#[derive(Clone, Copy, Debug, PartialEq, Eq, Structural)]
pub enum State {
    List,
    ExternalEditor,
    Exiting,
}

/// The process-level outcome surfaced when a module relinquishes control
/// entirely: `Good` for normal (possibly empty) completion, `StateError` when
/// the editor failed and the content is non-empty or inconsistent.
#[derive(Clone, Copy, Debug, PartialEq, Eq, Structural)]
pub enum ExitStatus {
    Good,
    StateError,
}

/// What one call into a module reports back to the dispatcher: the input event
/// consumed (if any), an optional next outer state, an optional terminal exit
/// status, and an optional user-facing error message together with the state
/// to resume on once the error has been shown.  Absence of a next state means
/// "stay on the current module".
#[derive(Debug)]
pub struct ModuleResult {
    pub input: Option<Input>,
    pub state: Option<State>,
    pub exit_status: Option<ExitStatus>,
    pub error_message: Option<String>,
    pub error_resume: Option<State>,
}

/// The result that reports nothing: no input, no transition, no exit, no error.
pub open spec fn empty_result(r: ModuleResult) -> bool {
    &&& r.input is None
    &&& r.state is None
    &&& r.exit_status is None
    &&& r.error_message is None
    &&& r.error_resume is None
}

/// The result that carries the error message `msg` and asks to resume on the
/// external-editor state once the message has been acknowledged.
pub open spec fn error_result(r: ModuleResult, msg: Seq<char>) -> bool {
    &&& r.input is None
    &&& r.state is None
    &&& r.exit_status is None
    &&& r.error_message matches Some(m) && m@ == msg
    &&& r.error_resume == Some(State::ExternalEditor)
}

/// The result that requests the list state and nothing else.
pub open spec fn list_result(r: ModuleResult) -> bool {
    &&& r.input is None
    &&& r.state == Some(State::List)
    &&& r.exit_status is None
    &&& r.error_message is None
    &&& r.error_resume is None
}

/// The result that ends the process: `Good` when the content ended up empty,
/// `StateError` otherwise.
pub open spec fn exit_result(r: ModuleResult, content_empty: bool) -> bool {
    &&& r.input is None
    &&& r.state == Some(State::Exiting)
    &&& r.exit_status == Some(if content_empty { ExitStatus::Good } else { ExitStatus::StateError })
    &&& r.error_message is None
    &&& r.error_resume is None
}

impl ModuleResult {
    /// The result that reports nothing.
    pub fn new() -> (r: ModuleResult)
        ensures
            empty_result(r),
    {
        ModuleResult {
            input: None,
            state: None,
            exit_status: None,
            error_message: None,
            error_resume: None,
        }
    }
}

} // verus!

//! The external-editor module: plans the invocation of a user-configured
//! editor command against the working file, interprets the program's exit
//! behaviour, handles the empty-result confirmation, and routes every failure
//! into a recoverable error state.
//!
//! The module itself performs no side effects.  The embedding environment
//! carries out the work the current state calls for (persist the file and run
//! the editor from `Active`; reload the file from `Finish`) and reports its
//! outcome back through [`ExternalEditor::process`] as plain values.

use vstd::prelude::*;
use crate::argument_tolkenizer::{spec_tolkenize, tolkenize};
use crate::file_content::FileContent;
use crate::input::Input;
use crate::process::{empty_result, error_result, exit_result, list_result, ExitStatus,
    ModuleResult, State};

verus! {

/// The module's internal state.  Exactly one is current at any time;
/// transitions happen only in response to `process` and `handle_input`.
#[derive(Clone, Copy, Debug, PartialEq, Eq, Structural)]
pub enum ExternalEditorState {
    Active,
    Error,
    Empty,
    Finish,
}

/// The report of the side-effecting work the embedding environment performed
/// for the current state: the full editor run (persist, spawn, wait) from
/// `Active`, the reload of the file content from `Finish`, and no work at all
/// from `Error` and `Empty`.
#[derive(Debug)]
pub enum WorkOutcome {
    RanEditor(Result<(), String>),
    Reloaded(Result<(), String>),
    NoWork,
}

/// How the external process's own ending is reported: it exited (with or
/// without success), or it could not be launched at all, with the
/// environment's message.
#[derive(Debug)]
pub enum EditorRun {
    Exited(bool),
    LaunchFailed(String),
}

/// The planned spawn: the executable and its arguments, with the placeholder
/// already substituted.
#[derive(Debug)]
pub struct EditorInvocation {
    pub program: String,
    pub arguments: Vec<String>,
}

/// The token that stands for the backing file path in a configured command.
pub open spec fn placeholder() -> Seq<char> {
    seq!['%']
}

pub open spec fn has_placeholder(args: Seq<Seq<char>>) -> bool {
    exists|k: int| 0 <= k < args.len() && args[k] == placeholder()
}

/// The argument list actually handed to the spawned process: every placeholder
/// token replaced by the backing file path and, when no token was a
/// placeholder, the path appended as the final argument — so the editor is
/// always invoked with the target file.
pub open spec fn substituted_args(args: Seq<Seq<char>>, path: Seq<char>) -> Seq<Seq<char>> {
    let replaced = Seq::new(args.len(), |k: int| if args[k] == placeholder() { path } else { args[k] });
    if has_placeholder(args) {
        replaced
    } else {
        replaced.push(path)
    }
}

/// The state `process` leaves the machine in, given the report of the outside
/// work and whether the file content is empty.
pub open spec fn spec_process_state(
    st: ExternalEditorState,
    work: WorkOutcome,
    file_empty: bool,
) -> ExternalEditorState {
    match st {
        ExternalEditorState::Active => match work {
            WorkOutcome::RanEditor(res) => if res is Ok {
                ExternalEditorState::Finish
            } else {
                ExternalEditorState::Error
            },
            _ => st,
        },
        ExternalEditorState::Finish => match work {
            WorkOutcome::Reloaded(res) => if res is Err {
                ExternalEditorState::Error
            } else if file_empty {
                ExternalEditorState::Empty
            } else {
                st
            },
            _ => st,
        },
        _ => st,
    }
}

/// The state `handle_input` leaves the machine in: only the empty-result
/// confirmation reacts, and only to `No`, which re-arms `Active`.
pub open spec fn spec_input_state(st: ExternalEditorState, input: Input) -> ExternalEditorState {
    match st {
        ExternalEditorState::Empty => if input == Input::No {
            ExternalEditorState::Active
        } else {
            st
        },
        _ => st,
    }
}

/// The external-editor module: the configured editor command, the comment
/// marker the environment uses when reloading the file, and the current
/// internal state.
#[derive(Debug)]
pub struct ExternalEditor {
    pub editor: String,
    pub comment_char: String,
    pub state: ExternalEditorState,
}

impl ExternalEditor {
    /// A fresh module, armed to run the editor.
    pub fn new(editor: String, comment_char: String) -> (r: Self)
        ensures
            r.editor == editor,
            r.comment_char == comment_char,
            r.state == ExternalEditorState::Active,
    {
        ExternalEditor { editor, comment_char, state: ExternalEditorState::Active }
    }

    /// Re-arm `Active` on entering the module — unless an empty-file
    /// confirmation is in progress, which re-activation must not reset.
    pub fn activate(&mut self)
        ensures
            final(self).editor == old(self).editor,
            final(self).comment_char == old(self).comment_char,
            final(self).state == (if old(self).state == ExternalEditorState::Empty {
                ExternalEditorState::Empty
            } else {
                ExternalEditorState::Active
            }),
    {
        if !(self.state == ExternalEditorState::Empty) {
            self.state = ExternalEditorState::Active;
        }
    }

    /// Plan the editor spawn: tokenize the configured command and substitute
    /// the placeholder.  An unparsable command or one without a single token
    /// is a configuration error, reported with its message.
    pub fn editor_invocation(&self, filepath: &String) -> (r: Result<EditorInvocation, String>)
        ensures
            spec_tolkenize(self.editor@) is None ==> (r matches Err(e) && e@
                == "Invalid editor: "@ + self.editor@),
            spec_tolkenize(self.editor@) matches Some(toks) ==> ((toks.len() == 0 ==> (r matches
                Err(e) && e@ == "No editor configured"@)) && (toks.len() > 0 ==> (r matches Ok(inv)
                && inv.program@ == toks[0] && inv.arguments.deep_view() == substituted_args(
                toks.drop_first(),
                filepath@,
            )))),
    {
        let toks = match tolkenize(self.editor.as_str()) {
            None => {
                return Err(String::from_str("Invalid editor: ").concat(self.editor.as_str()));
            },
            Some(t) => t,
        };
        if toks.len() == 0 {
            return Err(String::from_str("No editor configured"));
        }
        let ghost spec_toks = toks.deep_view();
        let program = toks[0].clone();
        let mut file_pattern_found = false;
        let mut arguments: Vec<String> = Vec::new();
        let mut idx: usize = 1;
        while idx < toks.len()
            invariant
                1 <= idx <= toks.len(),
                spec_toks == toks.deep_view(),
                spec_toks.len() == toks@.len(),
                file_pattern_found == has_placeholder(spec_toks.subrange(1, idx as int)),
                arguments.deep_view() =~= Seq::new(
                    (idx - 1) as nat,
                    |k: int| if spec_toks[k + 1] == placeholder() {
                        filepath@
                    } else {
                        spec_toks[k + 1]
                    },
                ),
            decreases toks.len() - idx,
        {
            let ghost prefix = spec_toks.subrange(1, idx as int);
            let ghost prefix2 = spec_toks.subrange(1, idx + 1);
            let ghost old_args = arguments.deep_view();
            proof {
                assert(spec_toks[idx as int] == toks@[idx as int]@);
                assert(prefix2 =~= prefix.push(spec_toks[idx as int]));
                if has_placeholder(prefix) {
                    let w = choose|k: int| 0 <= k < prefix.len() && prefix[k] == placeholder();
                    assert(prefix2[w] == placeholder());
                }
            }
            if is_placeholder(&toks[idx]) {
                file_pattern_found = true;
                arguments.push(filepath.clone());
                proof {
                    assert(prefix2[idx - 1] == placeholder());
                    assert(arguments.deep_view() =~= old_args.push(filepath@));
                }
            } else {
                let entry = toks[idx].clone();
                proof {
                    assert(entry@ == spec_toks[idx as int]);
                }
                arguments.push(entry);
                proof {
                    assert(arguments.deep_view() =~= old_args.push(spec_toks[idx as int]));
                    assert forall|k: int| 0 <= k < prefix2.len() && prefix2[k]
                        == placeholder() implies has_placeholder(prefix) by {
                        assert(k < prefix.len() && prefix[k] == placeholder());
                    }
                }
            }
            proof {
                assert(arguments.deep_view() =~= Seq::new(
                    idx as nat,
                    |k: int| if spec_toks[k + 1] == placeholder() {
                        filepath@
                    } else {
                        spec_toks[k + 1]
                    },
                ));
            }
            idx = idx + 1;
        }
        proof {
            assert(spec_toks.subrange(1, spec_toks.len() as int) =~= spec_toks.drop_first());
        }
        let ghost pre_args = arguments.deep_view();
        if !file_pattern_found {
            arguments.push(filepath.clone());
            proof {
                assert(arguments.deep_view() =~= pre_args.push(filepath@));
            }
        }
        proof {
            let args = spec_toks.drop_first();
            let path = filepath@;
            assert forall|k: int| 0 <= k < args.len() implies #[trigger] args[k] == spec_toks[k
                + 1] by {}
            assert(file_pattern_found == has_placeholder(args));
            let replaced = Seq::new(
                args.len(),
                |k: int| if args[k] == placeholder() {
                    path
                } else {
                    args[k]
                },
            );
            assert(pre_args =~= replaced);
            if file_pattern_found {
                assert(substituted_args(args, path) == replaced);
            } else {
                assert(substituted_args(args, path) == replaced.push(path));
                assert(arguments.deep_view() =~= replaced.push(path));
            }
        }
        Ok(EditorInvocation { program, arguments })
    }

    /// Judge the environment's report of running the editor: a non-zero or
    /// abnormal exit is a hard failure for this invocation, as is a failure to
    /// launch.
    pub fn interpret_editor_run(&self, run: EditorRun) -> (r: Result<(), String>)
        ensures
            run matches EditorRun::Exited(ok) ==> (ok ==> r is Ok) && (!ok ==> (r matches Err(e)
                && e@ == "Editor returned non-zero exit status."@)),
            run matches EditorRun::LaunchFailed(m) ==> (r matches Err(e) && e@
                == "Unable to run editor ("@ + self.editor@ + "):\n"@ + m@),
    {
        match run {
            EditorRun::Exited(true) => Ok(()),
            EditorRun::Exited(false) => Err(
                String::from_str("Editor returned non-zero exit status."),
            ),
            EditorRun::LaunchFailed(m) => Err(
                String::from_str("Unable to run editor (").concat(self.editor.as_str()).concat(
                    "):\n",
                ).concat(m.as_str()),
            ),
        }
    }

    /// React to the report of the editor run: success arms `Finish`, any
    /// failure carries its message into the `Error` state and asks to resume
    /// on the external-editor state.
    pub fn process_active(&mut self, run_result: Result<(), String>) -> (r: ModuleResult)
        ensures
            final(self).editor == old(self).editor,
            final(self).comment_char == old(self).comment_char,
            final(self).state == (if run_result is Ok {
                ExternalEditorState::Finish
            } else {
                ExternalEditorState::Error
            }),
            run_result is Ok ==> empty_result(r),
            run_result matches Err(e) ==> error_result(r, e@),
    {
        match run_result {
            Ok(()) => {
                self.state = ExternalEditorState::Finish;
                ModuleResult::new()
            },
            Err(e) => {
                self.state = ExternalEditorState::Error;
                ModuleResult {
                    input: None,
                    state: None,
                    exit_status: None,
                    error_message: Some(e),
                    error_resume: Some(State::ExternalEditor),
                }
            },
        }
    }

    /// React to the report of reloading the file content: a failed reload
    /// carries its message into `Error`; empty content needs the user's
    /// confirmation (`Empty`); non-empty content requests the list state.
    pub fn process_finish(&mut self, reload_result: Result<(), String>, file: &FileContent) -> (r:
        ModuleResult)
        ensures
            final(self).editor == old(self).editor,
            final(self).comment_char == old(self).comment_char,
            final(self).state == (if reload_result is Err {
                ExternalEditorState::Error
            } else if file.lines@.len() == 0 {
                ExternalEditorState::Empty
            } else {
                old(self).state
            }),
            reload_result matches Err(e) ==> error_result(r, e@),
            reload_result is Ok && file.lines@.len() == 0 ==> empty_result(r),
            reload_result is Ok && file.lines@.len() > 0 ==> list_result(r),
    {
        match reload_result {
            Err(e) => {
                self.state = ExternalEditorState::Error;
                ModuleResult {
                    input: None,
                    state: None,
                    exit_status: None,
                    error_message: Some(e),
                    error_resume: Some(State::ExternalEditor),
                }
            },
            Ok(()) => {
                if file.is_empty() {
                    self.state = ExternalEditorState::Empty;
                    ModuleResult::new()
                } else {
                    ModuleResult {
                        input: None,
                        state: Some(State::List),
                        exit_status: None,
                        error_message: None,
                        error_resume: None,
                    }
                }
            },
        }
    }

    /// Produce the terminal result after an error was acknowledged: always
    /// request exiting, with status `Good` when the content ended up empty and
    /// `StateError` otherwise.
    pub fn process_error(&self, file: &FileContent) -> (r: ModuleResult)
        ensures
            exit_result(r, file.lines@.len() == 0),
    {
        ModuleResult {
            input: None,
            state: Some(State::Exiting),
            exit_status: Some(
                if file.is_empty() {
                    ExitStatus::Good
                } else {
                    ExitStatus::StateError
                },
            ),
            error_message: None,
            error_resume: None,
        }
    }

    /// One unit of work, dispatched on the current state.  `work` is the
    /// environment's report of the side effects the state called for.
    pub fn process(&mut self, work: WorkOutcome, file: &FileContent) -> (r: ModuleResult)
        requires
            old(self).state == ExternalEditorState::Active ==> work is RanEditor,
            old(self).state == ExternalEditorState::Finish ==> work is Reloaded,
            old(self).state == ExternalEditorState::Error || old(self).state
                == ExternalEditorState::Empty ==> work is NoWork,
        ensures
            final(self).editor == old(self).editor,
            final(self).comment_char == old(self).comment_char,
            final(self).state == spec_process_state(old(self).state, work, file.lines@.len() == 0),
            work matches WorkOutcome::RanEditor(res) ==> (old(self).state
                == ExternalEditorState::Active ==> ((res is Ok ==> empty_result(r)) && (res matches
                Err(e) ==> error_result(r, e@)))),
            work matches WorkOutcome::Reloaded(res) ==> (old(self).state
                == ExternalEditorState::Finish ==> ((res matches Err(e) ==> error_result(r, e@))
                && (res is Ok && file.lines@.len() == 0 ==> empty_result(r)) && (res is Ok
                && file.lines@.len() > 0 ==> list_result(r)))),
            old(self).state == ExternalEditorState::Error ==> exit_result(
                r,
                file.lines@.len() == 0,
            ),
            old(self).state == ExternalEditorState::Empty ==> empty_result(r),
    {
        match self.state {
            ExternalEditorState::Active => {
                match work {
                    WorkOutcome::RanEditor(res) => self.process_active(res),
                    _ => ModuleResult::new(),
                }
            },
            ExternalEditorState::Error => self.process_error(file),
            ExternalEditorState::Empty => ModuleResult::new(),
            ExternalEditorState::Finish => {
                match work {
                    WorkOutcome::Reloaded(res) => self.process_finish(res, file),
                    _ => ModuleResult::new(),
                }
            },
        }
    }

    /// While the editor phase is running, any key except a terminal resize
    /// requests the list state; a resize is swallowed.
    pub fn handle_input_active(&self, input: Input) -> (r: ModuleResult)
        ensures
            r.input == Some(input),
            r.exit_status is None,
            r.error_message is None,
            r.error_resume is None,
            input == Input::Resize ==> r.state is None,
            input != Input::Resize ==> r.state == Some(State::List),
    {
        match input {
            Input::Resize => {
                ModuleResult {
                    input: Some(input),
                    state: None,
                    exit_status: None,
                    error_message: None,
                    error_resume: None,
                }
            },
            _ => {
                ModuleResult {
                    input: Some(input),
                    state: Some(State::List),
                    exit_status: None,
                    error_message: None,
                    error_resume: None,
                }
            },
        }
    }

    /// The empty-result confirmation: `Yes` exits with status `Good`; `No`
    /// re-arms `Active` and asks to run the editor again; anything else is
    /// ignored.
    pub fn handle_input_empty(&mut self, input: Input) -> (r: ModuleResult)
        ensures
            final(self).editor == old(self).editor,
            final(self).comment_char == old(self).comment_char,
            final(self).state == (if input == Input::No {
                ExternalEditorState::Active
            } else {
                old(self).state
            }),
            r.input == Some(input),
            r.error_message is None,
            r.error_resume is None,
            input == Input::Yes ==> r.state == Some(State::Exiting) && r.exit_status == Some(
                ExitStatus::Good,
            ),
            input == Input::No ==> r.state == Some(State::ExternalEditor) && r.exit_status is None,
            input != Input::Yes && input != Input::No ==> r.state is None && r.exit_status is None,
    {
        match input {
            Input::Yes => {
                ModuleResult {
                    input: Some(input),
                    state: Some(State::Exiting),
                    exit_status: Some(ExitStatus::Good),
                    error_message: None,
                    error_resume: None,
                }
            },
            Input::No => {
                self.state = ExternalEditorState::Active;
                ModuleResult {
                    input: Some(input),
                    state: Some(State::ExternalEditor),
                    exit_status: None,
                    error_message: None,
                    error_resume: None,
                }
            },
            _ => {
                ModuleResult {
                    input: Some(input),
                    state: None,
                    exit_status: None,
                    error_message: None,
                    error_resume: None,
                }
            },
        }
    }

    /// Interpret one input event according to the current state.  `Error` and
    /// `Finish` do not consume input: the event is reported as unhandled.
    pub fn handle_input(&mut self, input: Input) -> (r: ModuleResult)
        ensures
            final(self).editor == old(self).editor,
            final(self).comment_char == old(self).comment_char,
            final(self).state == spec_input_state(old(self).state, input),
            old(self).state == ExternalEditorState::Active ==> {
                &&& r.input == Some(input)
                &&& r.exit_status is None
                &&& r.error_message is None
                &&& r.error_resume is None
                &&& (input == Input::Resize ==> r.state is None)
                &&& (input != Input::Resize ==> r.state == Some(State::List))
            },
            old(self).state == ExternalEditorState::Empty ==> {
                &&& r.input == Some(input)
                &&& r.error_message is None
                &&& r.error_resume is None
                &&& (input == Input::Yes ==> r.state == Some(State::Exiting) && r.exit_status
                    == Some(ExitStatus::Good))
                &&& (input == Input::No ==> r.state == Some(State::ExternalEditor)
                    && r.exit_status is None)
                &&& (input != Input::Yes && input != Input::No ==> r.state is None
                    && r.exit_status is None)
            },
            old(self).state == ExternalEditorState::Error || old(self).state
                == ExternalEditorState::Finish ==> {
                &&& r.input == Some(Input::Other)
                &&& r.state is None
                &&& r.exit_status is None
                &&& r.error_message is None
                &&& r.error_resume is None
            },
    {
        match self.state {
            ExternalEditorState::Active => self.handle_input_active(input),
            ExternalEditorState::Empty => self.handle_input_empty(input),
            _ => {
                ModuleResult {
                    input: Some(Input::Other),
                    state: None,
                    exit_status: None,
                    error_message: None,
                    error_resume: None,
                }
            },
        }
    }

    /// What should appear on screen: only the empty-result confirmation has a
    /// prompt of its own.
    pub fn render(&self) -> (r: Option<&'static str>)
        ensures
            self.state == ExternalEditorState::Empty ==> (r matches Some(m) && m@
                == "Empty rebase todo file. Do you wish to exit?"@),
            self.state != ExternalEditorState::Empty ==> r is None,
    {
        match self.state {
            ExternalEditorState::Empty => Some("Empty rebase todo file. Do you wish to exit?"),
            _ => None,
        }
    }
}

fn is_placeholder(t: &String) -> (b: bool)
    ensures
        b == (t@ == placeholder()),
{
    let r = t.as_str().unicode_len() == 1 && t.as_str().get_char(0) == '%';
    proof {
        if r {
            assert(t@ =~= placeholder());
        }
    }
    r
}

/// Law (determinism of the machine): from `Active`, a successful run always
/// yields `Finish` and a failed one always yields `Error`; from `Finish`, a
/// successful reload yields `Empty` exactly when the content is empty and
/// stays on `Finish` (requesting the list state) otherwise.
pub proof fn lemma_state_machine_determinism(
    run: Result<(), String>,
    reload: Result<(), String>,
    file_empty: bool,
)
    ensures
        run is Ok ==> spec_process_state(
            ExternalEditorState::Active,
            WorkOutcome::RanEditor(run),
            file_empty,
        ) == ExternalEditorState::Finish,
        run is Err ==> spec_process_state(
            ExternalEditorState::Active,
            WorkOutcome::RanEditor(run),
            file_empty,
        ) == ExternalEditorState::Error,
        reload is Ok && file_empty ==> spec_process_state(
            ExternalEditorState::Finish,
            WorkOutcome::Reloaded(reload),
            file_empty,
        ) == ExternalEditorState::Empty,
        reload is Ok && !file_empty ==> spec_process_state(
            ExternalEditorState::Finish,
            WorkOutcome::Reloaded(reload),
            file_empty,
        ) == ExternalEditorState::Finish,
{
}

/// Law (empty-confirmation round trip): from `Empty`, answering `No` re-arms
/// `Active`; a successful editor run then reaches `Finish`, and a successful
/// reload of a still-empty file returns to `Empty` — the starting state, so
/// the cycle can repeat indefinitely.
pub proof fn lemma_empty_confirmation_round_trip(
    run: Result<(), String>,
    reload: Result<(), String>,
    file_empty_during_run: bool,
)
    requires
        run is Ok,
        reload is Ok,
    ensures
        ({
            let st1 = spec_input_state(ExternalEditorState::Empty, Input::No);
            let st2 = spec_process_state(st1, WorkOutcome::RanEditor(run), file_empty_during_run);
            let st3 = spec_process_state(st2, WorkOutcome::Reloaded(reload), true);
            st1 == ExternalEditorState::Active && st2 == ExternalEditorState::Finish && st3
                == ExternalEditorState::Empty
        }),
{
}

/// Law (placeholder substitution, placeholder present): when exactly one
/// argument token is the placeholder and no other argument token equals the
/// backing path, the spawned argument list has the same length (the path is
/// not additionally appended) and contains the path exactly once, at the
/// placeholder's position.
pub proof fn lemma_placeholder_substituted(args: Seq<Seq<char>>, path: Seq<char>, j: int)
    requires
        0 <= j < args.len(),
        args[j] == placeholder(),
        forall|k: int| 0 <= k < args.len() && k != j ==> args[k] != placeholder(),
        forall|k: int| 0 <= k < args.len() && k != j ==> args[k] != path,
    ensures
        ({
            let r = substituted_args(args, path);
            r.len() == args.len() && r[j] == path && (forall|k: int|
                0 <= k < r.len() && k != j ==> r[k] != path)
        }),
{
    assert(has_placeholder(args));
}

/// Law (placeholder substitution, placeholder absent): when no argument token
/// is the placeholder, the argument tokens are passed through unchanged and
/// the backing path is the last argument.
pub proof fn lemma_placeholder_absent_appends(args: Seq<Seq<char>>, path: Seq<char>)
    requires
        forall|k: int| 0 <= k < args.len() ==> args[k] != placeholder(),
    ensures
        ({
            let r = substituted_args(args, path);
            r.len() == args.len() + 1 && r.last() == path && (forall|k: int|
                0 <= k < args.len() ==> r[k] == args[k])
        }),
{
    assert(!has_placeholder(args));
}

} // verus!

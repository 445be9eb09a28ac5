use interactive_editor::external_editor::{
    EditorRun, ExternalEditor, ExternalEditorState, WorkOutcome,
};
use interactive_editor::file_content::FileContent;
use interactive_editor::input::Input;
use interactive_editor::process::{ExitStatus, State};

fn editor(cmd: &str) -> ExternalEditor {
    ExternalEditor::new(String::from(cmd), String::from("#"))
}

fn file_with(lines: &[&str]) -> FileContent {
    FileContent {
        lines: lines.iter().map(|l| String::from(*l)).collect(),
        path: String::from("/tmp/todo"),
    }
}

#[test]
fn scenario_a_placeholder_is_replaced_by_the_path() {
    let ed = editor("vim %");
    let file = file_with(&["pick 123 message"]);
    let inv = ed.editor_invocation(file.get_filepath()).expect("command should parse");
    let mut spawned = vec![inv.program.clone()];
    spawned.extend(inv.arguments.iter().cloned());
    assert_eq!(spawned, vec!["vim", "/tmp/todo"]);
}

#[test]
fn placeholder_once_is_substituted_in_place_and_path_not_appended() {
    let ed = editor("edit -f % --now");
    let path = String::from("/x");
    let inv = ed.editor_invocation(&path).expect("command should parse");
    assert_eq!(inv.program, "edit");
    assert_eq!(inv.arguments, vec!["-f", "/x", "--now"]);
}

#[test]
fn placeholder_absent_appends_path_last() {
    let ed = editor("edit -f");
    let path = String::from("/x");
    let inv = ed.editor_invocation(&path).expect("command should parse");
    assert_eq!(inv.program, "edit");
    assert_eq!(inv.arguments, vec!["-f", "/x"]);
}

#[test]
fn placeholder_as_first_token_is_the_program_not_substituted() {
    let ed = editor("%");
    let path = String::from("/x");
    let inv = ed.editor_invocation(&path).expect("command should parse");
    assert_eq!(inv.program, "%");
    assert_eq!(inv.arguments, vec!["/x"]);
}

#[test]
fn scenario_b_blank_command_is_a_configuration_error() {
    let mut ed = editor("  ");
    let file = file_with(&["pick 123 message"]);
    let err = ed.editor_invocation(file.get_filepath()).err().expect("blank command must fail");
    assert_eq!(err, "No editor configured");
    let r = ed.process_active(Err(err));
    assert_eq!(ed.state, ExternalEditorState::Error);
    assert_eq!(r.error_message, Some(String::from("No editor configured")));
    assert_eq!(r.error_resume, Some(State::ExternalEditor));
    assert_eq!(r.state, None);
    assert_eq!(r.exit_status, None);
}

#[test]
fn unparsable_command_is_a_configuration_error() {
    let ed = editor("vim \"x");
    let path = String::from("/tmp/todo");
    let err = ed.editor_invocation(&path).err().expect("unterminated quote must fail");
    assert_eq!(err, "Invalid editor: vim \"x");
}

#[test]
fn interpret_editor_run_judges_the_exit() {
    let ed = editor("vim %");
    assert_eq!(ed.interpret_editor_run(EditorRun::Exited(true)), Ok(()));
    assert_eq!(
        ed.interpret_editor_run(EditorRun::Exited(false)),
        Err(String::from("Editor returned non-zero exit status."))
    );
    assert_eq!(
        ed.interpret_editor_run(EditorRun::LaunchFailed(String::from("no such file"))),
        Err(String::from("Unable to run editor (vim %):\nno such file"))
    );
}

#[test]
fn scenario_c_zero_exit_then_empty_reload_then_yes_exits_good() {
    let mut ed = editor("vim %");
    assert_eq!(ed.state, ExternalEditorState::Active);
    let r1 = ed.process_active(Ok(()));
    assert_eq!(ed.state, ExternalEditorState::Finish);
    assert_eq!(r1.state, None);
    assert_eq!(r1.error_message, None);
    let empty = file_with(&[]);
    let r2 = ed.process_finish(Ok(()), &empty);
    assert_eq!(ed.state, ExternalEditorState::Empty);
    assert_eq!(r2.state, None);
    let r3 = ed.handle_input(Input::Yes);
    assert_eq!(r3.input, Some(Input::Yes));
    assert_eq!(r3.state, Some(State::Exiting));
    assert_eq!(r3.exit_status, Some(ExitStatus::Good));
    assert_eq!(ed.state, ExternalEditorState::Empty);
}

#[test]
fn scenario_d_non_zero_exit_with_content_exits_state_error() {
    let mut ed = editor("vim %");
    let run = ed.interpret_editor_run(EditorRun::Exited(false));
    let r1 = ed.process_active(run);
    assert_eq!(ed.state, ExternalEditorState::Error);
    assert_eq!(r1.error_message, Some(String::from("Editor returned non-zero exit status.")));
    assert_eq!(r1.error_resume, Some(State::ExternalEditor));
    let file = file_with(&["pick 123 message"]);
    let r2 = ed.process(WorkOutcome::NoWork, &file);
    assert_eq!(ed.state, ExternalEditorState::Error);
    assert_eq!(r2.state, Some(State::Exiting));
    assert_eq!(r2.exit_status, Some(ExitStatus::StateError));
}

#[test]
fn error_with_empty_content_exits_good() {
    let mut ed = editor("vim %");
    let _ = ed.process_active(Err(String::from("boom")));
    let empty = file_with(&[]);
    let r = ed.process_error(&empty);
    assert_eq!(r.state, Some(State::Exiting));
    assert_eq!(r.exit_status, Some(ExitStatus::Good));
}

#[test]
fn finish_with_content_requests_the_list_state() {
    let mut ed = editor("vim %");
    let _ = ed.process_active(Ok(()));
    let file = file_with(&["pick 123 message"]);
    let r = ed.process(WorkOutcome::Reloaded(Ok(())), &file);
    assert_eq!(ed.state, ExternalEditorState::Finish);
    assert_eq!(r.state, Some(State::List));
    assert_eq!(r.exit_status, None);
}

#[test]
fn failed_reload_enters_error_with_the_message() {
    let mut ed = editor("vim %");
    let _ = ed.process_active(Ok(()));
    let file = file_with(&["pick 123 message"]);
    let r = ed.process_finish(Err(String::from("cannot read")), &file);
    assert_eq!(ed.state, ExternalEditorState::Error);
    assert_eq!(r.error_message, Some(String::from("cannot read")));
    assert_eq!(r.error_resume, Some(State::ExternalEditor));
}

#[test]
fn empty_confirmation_no_rearms_and_the_cycle_repeats() {
    let mut ed = editor("vim %");
    let empty = file_with(&[]);
    let _ = ed.process_active(Ok(()));
    let _ = ed.process_finish(Ok(()), &empty);
    assert_eq!(ed.state, ExternalEditorState::Empty);
    for _ in 0..3 {
        let r = ed.handle_input(Input::No);
        assert_eq!(ed.state, ExternalEditorState::Active);
        assert_eq!(r.state, Some(State::ExternalEditor));
        let _ = ed.process(WorkOutcome::RanEditor(Ok(())), &empty);
        assert_eq!(ed.state, ExternalEditorState::Finish);
        let _ = ed.process(WorkOutcome::Reloaded(Ok(())), &empty);
        assert_eq!(ed.state, ExternalEditorState::Empty);
    }
}

#[test]
fn empty_confirmation_ignores_other_input() {
    let mut ed = editor("vim %");
    let empty = file_with(&[]);
    let _ = ed.process_active(Ok(()));
    let _ = ed.process_finish(Ok(()), &empty);
    let r = ed.handle_input(Input::Other);
    assert_eq!(ed.state, ExternalEditorState::Empty);
    assert_eq!(r.input, Some(Input::Other));
    assert_eq!(r.state, None);
    assert_eq!(r.exit_status, None);
}

#[test]
fn active_input_any_key_but_resize_requests_list() {
    let mut ed = editor("vim %");
    let r = ed.handle_input(Input::Other);
    assert_eq!(r.input, Some(Input::Other));
    assert_eq!(r.state, Some(State::List));
    let r2 = ed.handle_input(Input::Resize);
    assert_eq!(r2.input, Some(Input::Resize));
    assert_eq!(r2.state, None);
}

#[test]
fn error_and_finish_do_not_consume_input() {
    let mut ed = editor("vim %");
    let _ = ed.process_active(Err(String::from("boom")));
    let r = ed.handle_input(Input::Yes);
    assert_eq!(r.input, Some(Input::Other));
    assert_eq!(r.state, None);
    let mut ed2 = editor("vim %");
    let _ = ed2.process_active(Ok(()));
    let r2 = ed2.handle_input(Input::Yes);
    assert_eq!(r2.input, Some(Input::Other));
    assert_eq!(r2.state, None);
}

#[test]
fn activate_rearms_active_except_during_empty_confirmation() {
    let mut ed = editor("vim %");
    let _ = ed.process_active(Err(String::from("boom")));
    assert_eq!(ed.state, ExternalEditorState::Error);
    ed.activate();
    assert_eq!(ed.state, ExternalEditorState::Active);
    let empty = file_with(&[]);
    let _ = ed.process_active(Ok(()));
    let _ = ed.process_finish(Ok(()), &empty);
    assert_eq!(ed.state, ExternalEditorState::Empty);
    ed.activate();
    assert_eq!(ed.state, ExternalEditorState::Empty);
}

#[test]
fn render_prompts_only_for_the_empty_confirmation() {
    let mut ed = editor("vim %");
    assert_eq!(ed.render(), None);
    let empty = file_with(&[]);
    let _ = ed.process_active(Ok(()));
    assert_eq!(ed.render(), None);
    let _ = ed.process_finish(Ok(()), &empty);
    assert_eq!(ed.render(), Some("Empty rebase todo file. Do you wish to exit?"));
}

#[test]
fn file_content_observations() {
    let mut file = FileContent::new(String::from("/tmp/todo"));
    assert!(file.is_empty());
    assert_eq!(file.get_filepath().as_str(), "/tmp/todo");
    file.lines.push(String::from("pick 123 message"));
    assert!(!file.is_empty());
    file.clear();
    assert!(file.is_empty());
    assert_eq!(file.get_filepath().as_str(), "/tmp/todo");
}

use interactive_editor::confirm_abort::ConfirmAbort;
use interactive_editor::confirm_rebase::ConfirmRebase;
use interactive_editor::file_content::FileContent;
use interactive_editor::input::Input;
use interactive_editor::process::{ExitStatus, State};

fn file_with_entry() -> FileContent {
    FileContent {
        lines: vec![String::from("pick 123 message")],
        path: String::from("/tmp/todo"),
    }
}

#[test]
fn abort_yes_clears_the_file_and_exits_good() {
    let mut dialog = ConfirmAbort::new();
    let mut file = file_with_entry();
    let r = dialog.handle_input(Input::Yes, &mut file);
    assert!(file.is_empty());
    assert_eq!(r.input, Some(Input::Yes));
    assert_eq!(r.state, Some(State::Exiting));
    assert_eq!(r.exit_status, Some(ExitStatus::Good));
    assert_eq!(r.error_message, None);
}

#[test]
fn abort_no_keeps_the_file_and_returns_to_the_list() {
    let mut dialog = ConfirmAbort::new();
    let mut file = file_with_entry();
    let r = dialog.handle_input(Input::No, &mut file);
    assert!(!file.is_empty());
    assert_eq!(r.input, Some(Input::No));
    assert_eq!(r.state, Some(State::List));
    assert_eq!(r.exit_status, None);
}

#[test]
fn abort_other_input_is_a_no_op() {
    let mut dialog = ConfirmAbort::new();
    let mut file = file_with_entry();
    let r = dialog.handle_input(Input::Resize, &mut file);
    assert!(!file.is_empty());
    assert_eq!(r.input, Some(Input::Resize));
    assert_eq!(r.state, None);
    assert_eq!(r.exit_status, None);
}

#[test]
fn abort_prompt_text() {
    let dialog = ConfirmAbort::new();
    assert_eq!(dialog.render(), "Are you sure you want to abort");
}

#[test]
fn rebase_yes_exits_good() {
    let mut dialog = ConfirmRebase::new();
    let r = dialog.handle_input(Input::Yes);
    assert_eq!(r.input, Some(Input::Yes));
    assert_eq!(r.state, Some(State::Exiting));
    assert_eq!(r.exit_status, Some(ExitStatus::Good));
}

#[test]
fn rebase_no_returns_to_the_list() {
    let mut dialog = ConfirmRebase::new();
    let r = dialog.handle_input(Input::No);
    assert_eq!(r.input, Some(Input::No));
    assert_eq!(r.state, Some(State::List));
    assert_eq!(r.exit_status, None);
}

#[test]
fn rebase_other_input_is_a_no_op() {
    let mut dialog = ConfirmRebase::new();
    let r = dialog.handle_input(Input::Other);
    assert_eq!(r.input, Some(Input::Other));
    assert_eq!(r.state, None);
    assert_eq!(r.exit_status, None);
}

#[test]
fn rebase_prompt_text() {
    let dialog = ConfirmRebase::new();
    assert_eq!(dialog.render(), "Are you sure you want to rebase");
}

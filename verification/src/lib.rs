//! Interactive process modules: a self-contained screen/state-machine pattern.
//!
//! Each module performs one unit of work per call, interprets user input, and
//! reports a uniform [`process::ModuleResult`] telling the enclosing screen
//! stack what should happen next.  The core module is the external-editor
//! integration ([`external_editor`]): it plans the invocation of a
//! user-configured editor command against a working file, interprets the
//! program's exit behaviour, handles the empty-result confirmation, and routes
//! every failure into a recoverable error state.  The confirm dialogs are
//! minimal instances of the same contract.
//!
//! The modules themselves are pure state machines: the side effects they call
//! for (writing the file, spawning the editor, reloading the file) are carried
//! out by the embedding environment, which hands their outcomes back in as
//! plain values.

pub mod argument_tolkenizer;
pub mod confirm_abort;
pub mod confirm_rebase;
pub mod external_editor;
pub mod file_content;
pub mod input;
pub mod process;

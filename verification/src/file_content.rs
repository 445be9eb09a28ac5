//! What the modules observe of the editable file: its entries and the path of
//! its backing file.  Writing and reloading the backing file is the embedding
//! environment's work; the modules only read emptiness and the path, and clear
//! the entries on an abort.

use vstd::prelude::*;

verus! {

/// The in-memory file content: an ordered sequence of entries plus the path of
/// the backing file they are persisted to.
#[derive(Debug)]
pub struct FileContent {
    pub lines: Vec<String>,
    pub path: String,
}

impl FileContent {
    /// Content with no entries, backed by `path`.
    pub fn new(path: String) -> (r: FileContent)
        ensures
            r.lines@ == Seq::<String>::empty(),
            r.path == path,
    {
        FileContent { lines: Vec::new(), path }
    }

    /// Whether there are no entries.
    pub fn is_empty(&self) -> (b: bool)
        ensures
            b == (self.lines@.len() == 0),
    {
        self.lines.len() == 0
    }

    /// Remove every entry; the backing path is kept.
    pub fn clear(&mut self)
        ensures
            final(self).lines@ == Seq::<String>::empty(),
            final(self).path == old(self).path,
    {
        self.lines = Vec::new();
    }

    /// The path of the backing file.
    pub fn get_filepath(&self) -> (r: &String)
        ensures
            r == self.path,
    {
        &self.path
    }
}

} // verus!

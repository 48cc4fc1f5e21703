//! The data the operations work on: one discovered filesystem entry, the
//! snapshot of a traversed tree that a run consumes, and the file updates
//! a substitution run plans.

use vstd::prelude::*;

verus! {

/// One filesystem object discovered during traversal, tagged with its
/// depth relative to the traversal root (the root itself has depth 0).
/// An entry that is neither a file nor a directory (an unfollowed
/// symbolic link) has both flags false.
pub struct Entry {
    pub path: String,
    pub is_file: bool,
    pub is_dir: bool,
    pub depth: usize,
}

/// A snapshot of one traversal, as the caller hands it to the library:
/// whether the root exists, the discovered entries, for each entry
/// whether its canonical path is hidden, and for each entry the decoded
/// text of the file (`None` for directories, for files the caller did
/// not read, and for files whose bytes do not decode as text).
pub struct TreeSnapshot {
    pub root_exists: bool,
    pub entries: Vec<Entry>,
    pub hidden: Vec<bool>,
    pub contents: Vec<Option<String>>,
}

impl TreeSnapshot {
    /// The three per-entry columns describe the same entries.
    pub open spec fn wf(&self) -> bool {
        &&& self.hidden@.len() == self.entries@.len()
        &&& self.contents@.len() == self.entries@.len()
    }
}

/// The pre-substitution copy of a file, and where it is written.
pub struct BackupArtifact {
    pub path: String,
    pub content: String,
}

/// One planned in-place substitution: the file, the backup to write
/// first (if backups are on), the fully substituted text that overwrites
/// the file, and the confirmation line to emit once it is written.
pub struct FileUpdate {
    pub path: String,
    pub backup: Option<BackupArtifact>,
    pub content: String,
    pub line: String,
}

/// The view of one planned update: path, backup path and content,
/// new content, confirmation line.
pub open spec fn update_view(u: FileUpdate) -> (Seq<char>, Option<(Seq<char>, Seq<char>)>, Seq<
    char,
>, Seq<char>) {
    (
        u.path@,
        match u.backup {
            Some(b) => Some((b.path@, b.content@)),
            None => None,
        },
        u.content@,
        u.line@,
    )
}

/// The views of a sequence of planned updates.
pub open spec fn updates_view(us: Seq<FileUpdate>) -> Seq<
    (Seq<char>, Option<(Seq<char>, Seq<char>)>, Seq<char>, Seq<char>),
> {
    Seq::new(us.len(), |i: int| update_view(us[i]))
}

/// Everything one run produces: the output lines, in order, and the file
/// updates a substitution run asks the caller to perform (empty for the
/// read-only operations).
pub struct RunPlan {
    pub lines: Vec<String>,
    pub updates: Vec<FileUpdate>,
}

} // verus!

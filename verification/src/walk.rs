//! The listing operation: walk the filtered entry stream and emit one
//! path per line, in traversal order. By default file paths are listed;
//! the directory-only switch lists directory paths instead (and ignores
//! the extension filter).

use vstd::prelude::*;
use vstd::string::*;

use crate::config::Recurse;
use crate::errors::RecurseError;
use crate::model::Entry;
use crate::model::TreeSnapshot;
use crate::pipeline::dir_selected;
use crate::pipeline::file_selected;
use crate::pipeline::spec_dir_selected;
use crate::pipeline::spec_file_selected;
use crate::text::views_of;

verus! {

/// Whether the listing emits this entry.
pub open spec fn spec_walk_emit(
    e: Entry,
    hid: bool,
    dir_only: bool,
    include_hidden: bool,
    extension: Option<String>,
    mindepth: Option<usize>,
    maxdepth: Option<usize>,
) -> bool {
    if dir_only {
        spec_dir_selected(e, hid, include_hidden, mindepth, maxdepth)
    } else {
        spec_file_selected(e, hid, include_hidden, extension, mindepth, maxdepth)
    }
}

/// The listing's output lines for the first `i` entries.
pub open spec fn spec_walk_lines_upto(
    entries: Seq<Entry>,
    hidden: Seq<bool>,
    dir_only: bool,
    include_hidden: bool,
    extension: Option<String>,
    mindepth: Option<usize>,
    maxdepth: Option<usize>,
    i: int,
) -> Seq<Seq<char>>
    decreases i,
{
    if i <= 0 {
        Seq::empty()
    } else {
        spec_walk_lines_upto(
            entries,
            hidden,
            dir_only,
            include_hidden,
            extension,
            mindepth,
            maxdepth,
            i - 1,
        ) + if spec_walk_emit(
            entries[i - 1],
            hidden[i - 1],
            dir_only,
            include_hidden,
            extension,
            mindepth,
            maxdepth,
        ) {
            seq![entries[i - 1].path@]
        } else {
            Seq::<Seq<char>>::empty()
        }
    }
}

/// The listing's output lines: one path per consumed entry, in order.
pub open spec fn spec_walk_lines(
    entries: Seq<Entry>,
    hidden: Seq<bool>,
    dir_only: bool,
    include_hidden: bool,
    extension: Option<String>,
    mindepth: Option<usize>,
    maxdepth: Option<usize>,
) -> Seq<Seq<char>> {
    spec_walk_lines_upto(
        entries,
        hidden,
        dir_only,
        include_hidden,
        extension,
        mindepth,
        maxdepth,
        entries.len() as int,
    )
}

/// The listing operation.
pub struct WalkCommand {}

impl WalkCommand {
    /// Lists the paths the walk request selects, one line each. Fails
    /// when the traversal root does not exist, and when handed a request
    /// for a different operation.
    pub fn execute(subcmd: Recurse, tree: &TreeSnapshot) -> (r: Result<
        Vec<String>,
        RecurseError,
    >)
        requires
            tree.wf(),
        ensures
            match subcmd {
                Recurse::Walk {
                    extension,
                    dir_only,
                    hidden,
                    inpath,
                    mindepth,
                    maxdepth,
                    symlinks,
                } => {
                    if tree.root_exists {
                        match r {
                            Ok(lines) => views_of(lines@) == spec_walk_lines(
                                tree.entries@,
                                tree.hidden@,
                                dir_only,
                                hidden,
                                extension,
                                mindepth,
                                maxdepth,
                            ),
                            Err(_) => false,
                        }
                    } else {
                        match r {
                            Err(RecurseError::MissingRoot(p)) => p@ == inpath@,
                            _ => false,
                        }
                    }
                },
                _ => match r {
                    Err(RecurseError::ParseFailure(c)) => c@ == "walk"@,
                    _ => false,
                },
            },
    {
        if let Recurse::Walk { extension, dir_only, hidden, inpath, mindepth, maxdepth, symlinks: _ } =
            subcmd {
            if !tree.root_exists {
                return Err(RecurseError::MissingRoot(inpath));
            }
            let mut lines: Vec<String> = Vec::new();
            let n = tree.entries.len();
            let mut i: usize = 0;
            while i < n
                invariant
                    i <= n,
                    n == tree.entries@.len(),
                    tree.hidden@.len() == n,
                    views_of(lines@) == spec_walk_lines_upto(
                        tree.entries@,
                        tree.hidden@,
                        dir_only,
                        hidden,
                        extension,
                        mindepth,
                        maxdepth,
                        i as int,
                    ),
                decreases n - i,
            {
                let e = &tree.entries[i];
                let hid = tree.hidden[i];
                let emit = if dir_only {
                    dir_selected(e, hid, hidden, &mindepth, &maxdepth)
                } else {
                    file_selected(e, hid, hidden, &extension, &mindepth, &maxdepth)
                };
                if emit {
                    lines.push(e.path.clone());
                }
                proof {
                    assert(views_of(lines@) =~= spec_walk_lines_upto(
                        tree.entries@,
                        tree.hidden@,
                        dir_only,
                        hidden,
                        extension,
                        mindepth,
                        maxdepth,
                        i + 1,
                    ));
                }
                i += 1;
            }
            Ok(lines)
        } else {
            Err(RecurseError::ParseFailure(String::from_str("walk")))
        }
    }
}

} // verus!

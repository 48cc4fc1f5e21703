//! The content-test operation: for every filtered file whose text the
//! pattern matches anywhere, emit the file's path as one line. Files
//! whose bytes did not decode as text are skipped silently.

use vstd::prelude::*;
use vstd::string::*;

use crate::config::Recurse;
use crate::errors::RecurseError;
use crate::model::Entry;
use crate::model::TreeSnapshot;
use crate::pipeline::file_selected;
use crate::pipeline::spec_file_selected;
use crate::rx::regex_error_of;
use crate::rx::regex_is_match;
use crate::rx::regex_valid;
use crate::rx::rx_is_match;
use crate::rx::rx_validate;
use crate::text::views_of;

verus! {

/// Whether the content test emits this entry: a consumed file whose
/// decoded text the pattern matches.
pub open spec fn spec_contains_emit(
    e: Entry,
    hid: bool,
    c: Option<String>,
    include_hidden: bool,
    extension: Option<String>,
    mindepth: Option<usize>,
    maxdepth: Option<usize>,
    pat: Seq<char>,
) -> bool {
    &&& spec_file_selected(e, hid, include_hidden, extension, mindepth, maxdepth)
    &&& c is Some
    &&& regex_is_match(pat, c.unwrap()@)
}

/// The content test's output lines for the first `i` entries.
pub open spec fn spec_contains_lines_upto(
    entries: Seq<Entry>,
    hidden: Seq<bool>,
    contents: Seq<Option<String>>,
    include_hidden: bool,
    extension: Option<String>,
    mindepth: Option<usize>,
    maxdepth: Option<usize>,
    pat: Seq<char>,
    i: int,
) -> Seq<Seq<char>>
    decreases i,
{
    if i <= 0 {
        Seq::empty()
    } else {
        spec_contains_lines_upto(
            entries,
            hidden,
            contents,
            include_hidden,
            extension,
            mindepth,
            maxdepth,
            pat,
            i - 1,
        ) + if spec_contains_emit(
            entries[i - 1],
            hidden[i - 1],
            contents[i - 1],
            include_hidden,
            extension,
            mindepth,
            maxdepth,
            pat,
        ) {
            seq![entries[i - 1].path@]
        } else {
            Seq::<Seq<char>>::empty()
        }
    }
}

/// The content test's output lines: the paths of the matching files, in
/// traversal order.
pub open spec fn spec_contains_lines(
    entries: Seq<Entry>,
    hidden: Seq<bool>,
    contents: Seq<Option<String>>,
    include_hidden: bool,
    extension: Option<String>,
    mindepth: Option<usize>,
    maxdepth: Option<usize>,
    pat: Seq<char>,
) -> Seq<Seq<char>> {
    spec_contains_lines_upto(
        entries,
        hidden,
        contents,
        include_hidden,
        extension,
        mindepth,
        maxdepth,
        pat,
        entries.len() as int,
    )
}

/// The content-test operation.
pub struct ContainsCommand {}

impl ContainsCommand {
    /// Emits the path of every consumed file whose text the pattern
    /// matches. Fails when the traversal root does not exist, when the
    /// pattern does not compile (with the compiler's message verbatim),
    /// and when handed a request for a different operation.
    pub fn execute(subcmd: Recurse, tree: &TreeSnapshot) -> (r: Result<
        Vec<String>,
        RecurseError,
    >)
        requires
            tree.wf(),
        ensures
            match subcmd {
                Recurse::Contains { extension, hidden, mindepth, maxdepth, symlinks, find, inpath } => {
                    if !tree.root_exists {
                        match r {
                            Err(RecurseError::MissingRoot(p)) => p@ == inpath@,
                            _ => false,
                        }
                    } else if !regex_valid(find@) {
                        match r {
                            Err(RecurseError::Pattern(m)) => m@ == regex_error_of(find@),
                            _ => false,
                        }
                    } else {
                        match r {
                            Ok(lines) => views_of(lines@) == spec_contains_lines(
                                tree.entries@,
                                tree.hidden@,
                                tree.contents@,
                                hidden,
                                extension,
                                mindepth,
                                maxdepth,
                                find@,
                            ),
                            _ => false,
                        }
                    }
                },
                _ => match r {
                    Err(RecurseError::ParseFailure(c)) => c@ == "contains"@,
                    _ => false,
                },
            },
    {
        if let Recurse::Contains { extension, hidden, mindepth, maxdepth, symlinks: _, find, inpath } =
            subcmd {
            if !tree.root_exists {
                return Err(RecurseError::MissingRoot(inpath));
            }
            if let Err(msg) = rx_validate(find.as_str()) {
                return Err(RecurseError::Pattern(msg));
            }
            let mut lines: Vec<String> = Vec::new();
            let n = tree.entries.len();
            let mut i: usize = 0;
            while i < n
                invariant
                    i <= n,
                    n == tree.entries@.len(),
                    tree.hidden@.len() == n,
                    tree.contents@.len() == n,
                    regex_valid(find@),
                    views_of(lines@) == spec_contains_lines_upto(
                        tree.entries@,
                        tree.hidden@,
                        tree.contents@,
                        hidden,
                        extension,
                        mindepth,
                        maxdepth,
                        find@,
                        i as int,
                    ),
                decreases n - i,
            {
                let e = &tree.entries[i];
                let hid = tree.hidden[i];
                if file_selected(e, hid, hidden, &extension, &mindepth, &maxdepth) {
                    match &tree.contents[i] {
                        Some(c) => {
                            if rx_is_match(find.as_str(), c.as_str()) {
                                lines.push(e.path.clone());
                            }
                        },
                        None => {},
                    }
                }
                proof {
                    assert(views_of(lines@) =~= spec_contains_lines_upto(
                        tree.entries@,
                        tree.hidden@,
                        tree.contents@,
                        hidden,
                        extension,
                        mindepth,
                        maxdepth,
                        find@,
                        i + 1,
                    ));
                }
                i += 1;
            }
            Ok(lines)
        } else {
            Err(RecurseError::ParseFailure(String::from_str("contains")))
        }
    }
}

} // verus!

//! The substitution operation: for every filtered file whose text the
//! pattern matches, plan one update — a backup of the pre-substitution
//! text (unless backups are off), the fully substituted text that
//! overwrites the file, and a confirmation line. Files with no match are
//! left entirely untouched, files already carrying the backup extension
//! are never rewritten, and a run whose root is a filesystem-root
//! sentinel, or does not exist, is refused before anything is planned.

use vstd::prelude::*;
use vstd::string::*;

use crate::config::Recurse;
use crate::errors::RecurseError;
use crate::model::BackupArtifact;
use crate::model::Entry;
use crate::model::FileUpdate;
use crate::model::TreeSnapshot;
use crate::model::update_view;
use crate::model::updates_view;
use crate::paths::get_backup_filepath;
use crate::paths::is_root_filepath;
use crate::paths::spec_backup_path;
use crate::paths::spec_is_root;
use crate::pipeline::replace_selected;
use crate::pipeline::spec_replace_selected;
use crate::rx::regex_error_of;
use crate::rx::regex_is_match;
use crate::rx::regex_replace_all;
use crate::rx::regex_valid;
use crate::rx::rx_is_match;
use crate::rx::rx_replace_all;
use crate::rx::rx_validate;
use crate::text::lemma_views_of_push;
use crate::text::views_of;

verus! {

/// Whether the substitution touches this entry: a consumed file whose
/// decoded text the pattern matches. Every other file is left untouched.
pub open spec fn spec_replace_emit(
    e: Entry,
    hid: bool,
    c: Option<String>,
    include_hidden: bool,
    extension: Option<String>,
    mindepth: Option<usize>,
    maxdepth: Option<usize>,
    pat: Seq<char>,
) -> bool {
    &&& spec_replace_selected(e, hid, include_hidden, extension, mindepth, maxdepth)
    &&& c is Some
    &&& regex_is_match(pat, c.unwrap()@)
}

/// The planned update for one touched file, as a view: the file's path;
/// the backup (its sibling path and the pre-substitution text) when
/// backups are on; the substituted text; the confirmation line.
pub open spec fn spec_update_for(e: Entry, c: String, pat: Seq<char>, rep: Seq<char>, nobu: bool) -> (
    Seq<char>,
    Option<(Seq<char>, Seq<char>)>,
    Seq<char>,
    Seq<char>,
) {
    (
        e.path@,
        if !nobu {
            Some((spec_backup_path(e.path@), c@))
        } else {
            None
        },
        regex_replace_all(pat, c@, rep),
        e.path@ + " updated"@,
    )
}

/// The planned updates for the first `i` entries.
pub open spec fn spec_replace_updates_upto(
    entries: Seq<Entry>,
    hidden: Seq<bool>,
    contents: Seq<Option<String>>,
    include_hidden: bool,
    extension: Option<String>,
    mindepth: Option<usize>,
    maxdepth: Option<usize>,
    pat: Seq<char>,
    rep: Seq<char>,
    nobu: bool,
    i: int,
) -> Seq<(Seq<char>, Option<(Seq<char>, Seq<char>)>, Seq<char>, Seq<char>)>
    decreases i,
{
    if i <= 0 {
        Seq::empty()
    } else {
        spec_replace_updates_upto(
            entries,
            hidden,
            contents,
            include_hidden,
            extension,
            mindepth,
            maxdepth,
            pat,
            rep,
            nobu,
            i - 1,
        ) + if spec_replace_emit(
            entries[i - 1],
            hidden[i - 1],
            contents[i - 1],
            include_hidden,
            extension,
            mindepth,
            maxdepth,
            pat,
        ) {
            seq![spec_update_for(entries[i - 1], contents[i - 1].unwrap(), pat, rep, nobu)]
        } else {
            Seq::<(Seq<char>, Option<(Seq<char>, Seq<char>)>, Seq<char>, Seq<char>)>::empty()
        }
    }
}

/// The planned updates of a run, in traversal order.
pub open spec fn spec_replace_updates(
    entries: Seq<Entry>,
    hidden: Seq<bool>,
    contents: Seq<Option<String>>,
    include_hidden: bool,
    extension: Option<String>,
    mindepth: Option<usize>,
    maxdepth: Option<usize>,
    pat: Seq<char>,
    rep: Seq<char>,
    nobu: bool,
) -> Seq<(Seq<char>, Option<(Seq<char>, Seq<char>)>, Seq<char>, Seq<char>)> {
    spec_replace_updates_upto(
        entries,
        hidden,
        contents,
        include_hidden,
        extension,
        mindepth,
        maxdepth,
        pat,
        rep,
        nobu,
        entries.len() as int,
    )
}

proof fn lemma_updates_view_push(v: Seq<FileUpdate>, u: FileUpdate)
    ensures
        updates_view(v.push(u)) == updates_view(v) + seq![update_view(u)],
{
    assert(updates_view(v.push(u)) =~= updates_view(v) + seq![update_view(u)]);
}

/// The substitution operation.
pub struct ReplaceCommand {}

impl ReplaceCommand {
    /// Plans the updates of a substitution run. Fails without planning
    /// anything when the root is a filesystem-root sentinel, when the
    /// traversal root does not exist, when the pattern does not compile
    /// (with the compiler's message verbatim), and when handed a request
    /// for a different operation.
    pub fn execute(subcmd: Recurse, tree: &TreeSnapshot) -> (r: Result<
        Vec<FileUpdate>,
        RecurseError,
    >)
        requires
            tree.wf(),
        ensures
            match subcmd {
                Recurse::Replace {
                    extension,
                    hidden,
                    nobu,
                    mindepth,
                    maxdepth,
                    symlinks,
                    find,
                    replace,
                    inpath,
                } => {
                    if spec_is_root(inpath@) {
                        match r {
                            Err(RecurseError::RootSentinel(p)) => p@ == inpath@,
                            _ => false,
                        }
                    } else if !tree.root_exists {
                        match r {
                            Err(RecurseError::MissingRoot(p)) => p@ == inpath@,
                            _ => false,
                        }
                    } else if !regex_valid(find@) {
                        match r {
                            Err(RecurseError::Pattern(m)) => m@ == regex_error_of(find@),
                            _ => false,
                        }
                    } else {
                        match r {
                            Ok(updates) => updates_view(updates@) == spec_replace_updates(
                                tree.entries@,
                                tree.hidden@,
                                tree.contents@,
                                hidden,
                                extension,
                                mindepth,
                                maxdepth,
                                find@,
                                replace@,
                                nobu,
                            ),
                            _ => false,
                        }
                    }
                },
                _ => match r {
                    Err(RecurseError::ParseFailure(c)) => c@ == "replace"@,
                    _ => false,
                },
            },
    {
        if let Recurse::Replace {
            extension,
            hidden,
            nobu,
            mindepth,
            maxdepth,
            symlinks: _,
            find,
            replace,
            inpath,
        } = subcmd {
            if is_root_filepath(inpath.as_str()) {
                return Err(RecurseError::RootSentinel(inpath));
            }
            if !tree.root_exists {
                return Err(RecurseError::MissingRoot(inpath));
            }
            if let Err(msg) = rx_validate(find.as_str()) {
                return Err(RecurseError::Pattern(msg));
            }
            let mut updates: Vec<FileUpdate> = Vec::new();
            let n = tree.entries.len();
            let mut i: usize = 0;
            while i < n
                invariant
                    i <= n,
                    n == tree.entries@.len(),
                    tree.hidden@.len() == n,
                    tree.contents@.len() == n,
                    regex_valid(find@),
                    updates_view(updates@) == spec_replace_updates_upto(
                        tree.entries@,
                        tree.hidden@,
                        tree.contents@,
                        hidden,
                        extension,
                        mindepth,
                        maxdepth,
                        find@,
                        replace@,
                        nobu,
                        i as int,
                    ),
                decreases n - i,
            {
                let e = &tree.entries[i];
                let hid = tree.hidden[i];
                if replace_selected(e, hid, hidden, &extension, &mindepth, &maxdepth) {
                    match &tree.contents[i] {
                        Some(c) => {
                            if rx_is_match(find.as_str(), c.as_str()) {
                                let backup = if !nobu {
                                    Some(
                                        BackupArtifact {
                                            path: get_backup_filepath(e.path.as_str()),
                                            content: c.clone(),
                                        },
                                    )
                                } else {
                                    None
                                };
                                let newc = rx_replace_all(
                                    find.as_str(),
                                    c.as_str(),
                                    replace.as_str(),
                                );
                                let mut line = e.path.clone();
                                line.append(" updated");
                                let u = FileUpdate { path: e.path.clone(), backup, content: newc, line };
                                let ghost ubefore = updates@;
                                let ghost gu = u;
                                updates.push(u);
                                proof {
                                    lemma_updates_view_push(ubefore, gu);
                                    assert(update_view(gu) == spec_update_for(
                                        tree.entries@[i as int],
                                        tree.contents@[i as int].unwrap(),
                                        find@,
                                        replace@,
                                        nobu,
                                    ));
                                }
                            }
                        },
                        None => {},
                    }
                }
                proof {
                    assert(updates_view(updates@) =~= spec_replace_updates_upto(
                        tree.entries@,
                        tree.hidden@,
                        tree.contents@,
                        hidden,
                        extension,
                        mindepth,
                        maxdepth,
                        find@,
                        replace@,
                        nobu,
                        i + 1,
                    ));
                }
                i += 1;
            }
            Ok(updates)
        } else {
            Err(RecurseError::ParseFailure(String::from_str("replace")))
        }
    }
}

/// The confirmation lines of a planned run, one per update, in order.
pub open spec fn spec_update_lines(us: Seq<FileUpdate>) -> Seq<Seq<char>> {
    Seq::new(us.len(), |i: int| us[i].line@)
}

/// Collects the confirmation lines of a planned run.
pub fn update_lines(updates: &Vec<FileUpdate>) -> (r: Vec<String>)
    ensures
        views_of(r@) == spec_update_lines(updates@),
{
    let mut lines: Vec<String> = Vec::new();
    let n = updates.len();
    let mut i: usize = 0;
    while i < n
        invariant
            i <= n,
            n == updates@.len(),
            views_of(lines@) == spec_update_lines(updates@).take(i as int),
        decreases n - i,
    {
        let l = updates[i].line.clone();
        let ghost lbefore = lines@;
        let ghost gl = l;
        lines.push(l);
        proof {
            lemma_views_of_push(lbefore, gl);
            assert(views_of(lines@) =~= spec_update_lines(updates@).take(i + 1));
        }
        i += 1;
    }
    proof {
        assert(spec_update_lines(updates@).take(n as int) =~= spec_update_lines(updates@));
    }
    lines
}

} // verus!

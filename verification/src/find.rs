//! The match-report operation: for every filtered file whose text the
//! pattern matches at least once, re-scan the text line by line and emit
//! one record per match: path, 1-indexed line number, start and end
//! character offsets of the match within that line, and the matched
//! text. The matcher reports byte offsets; they are converted to
//! character offsets before a record is rendered.

use vstd::prelude::*;
use vstd::string::*;

use crate::config::Recurse;
use crate::errors::RecurseError;
use crate::model::Entry;
use crate::model::TreeSnapshot;
use crate::pipeline::file_selected;
use crate::pipeline::spec_file_selected;
use crate::rx::regex_find_all;
use crate::rx::regex_error_of;
use crate::rx::regex_is_match;
use crate::rx::regex_valid;
use crate::rx::rx_is_match;
use crate::rx::rx_matches;
use crate::rx::rx_validate;
use crate::rx::matches_view;
use crate::text::char_offset_of;
use crate::text::dec_str;
use crate::text::lemma_views_of_push;
use crate::text::spec_char_offset;
use crate::text::spec_dec;
use crate::text::lemma_spec_lines_nonempty;
use crate::text::spec_lines;
use crate::text::split_lines;
use crate::text::views_of;

verus! {

/// One match record: path, line number, the match's character offsets
/// within the line, and the matched text.
pub open spec fn spec_find_record(
    path: Seq<char>,
    ln: int,
    start: int,
    end: int,
    mtext: Seq<char>,
) -> Seq<char> {
    path + " "@ + spec_dec(ln as nat) + ":"@ + spec_dec(start as nat) + "-"@ + spec_dec(
        end as nat,
    ) + " [ "@ + mtext + " ]"@
}

/// The records of the first `j` matches of one line; the matcher's byte
/// offsets are rendered as character offsets within the line.
pub open spec fn spec_line_records_upto(
    path: Seq<char>,
    ln: int,
    line: Seq<char>,
    ms: Seq<(usize, usize, Seq<char>)>,
    j: int,
) -> Seq<Seq<char>>
    decreases j,
{
    if j <= 0 {
        Seq::empty()
    } else {
        spec_line_records_upto(path, ln, line, ms, j - 1) + seq![
            spec_find_record(
                path,
                ln,
                spec_char_offset(line, ms[j - 1].0 as int),
                spec_char_offset(line, ms[j - 1].1 as int),
                ms[j - 1].2,
            ),
        ]
    }
}

/// The records of all matches of one line.
pub open spec fn spec_line_records(
    path: Seq<char>,
    ln: int,
    line: Seq<char>,
    ms: Seq<(usize, usize, Seq<char>)>,
) -> Seq<Seq<char>> {
    spec_line_records_upto(path, ln, line, ms, ms.len() as int)
}

/// The records of the first `i` lines of one file, lines numbered from
/// one.
pub open spec fn spec_file_records_upto(
    path: Seq<char>,
    lines: Seq<Seq<char>>,
    pat: Seq<char>,
    i: int,
) -> Seq<Seq<char>>
    decreases i,
{
    if i <= 0 {
        Seq::empty()
    } else {
        spec_file_records_upto(path, lines, pat, i - 1) + spec_line_records(
            path,
            i,
            lines[i - 1],
            regex_find_all(pat, lines[i - 1]),
        )
    }
}

/// The match records of one file: nothing unless the pattern matches
/// somewhere in the whole text, else every line's matches in order.
pub open spec fn spec_find_file(path: Seq<char>, text: Seq<char>, pat: Seq<char>) -> Seq<
    Seq<char>,
> {
    if regex_is_match(pat, text) {
        let lines = spec_lines(text);
        spec_file_records_upto(path, lines, pat, lines.len() as int)
    } else {
        Seq::empty()
    }
}

/// The match-report's output lines for the first `i` entries.
pub open spec fn spec_find_lines_upto(
    entries: Seq<Entry>,
    hidden: Seq<bool>,
    contents: Seq<Option<String>>,
    include_hidden: bool,
    extension: Option<String>,
    mindepth: Option<usize>,
    maxdepth: Option<usize>,
    pat: Seq<char>,
    i: int,
) -> Seq<Seq<char>>
    decreases i,
{
    if i <= 0 {
        Seq::empty()
    } else {
        spec_find_lines_upto(
            entries,
            hidden,
            contents,
            include_hidden,
            extension,
            mindepth,
            maxdepth,
            pat,
            i - 1,
        ) + if spec_file_selected(
            entries[i - 1],
            hidden[i - 1],
            include_hidden,
            extension,
            mindepth,
            maxdepth,
        ) && contents[i - 1] is Some {
            spec_find_file(entries[i - 1].path@, contents[i - 1].unwrap()@, pat)
        } else {
            Seq::<Seq<char>>::empty()
        }
    }
}

/// The match-report's output lines: every consumed file's match records,
/// in traversal order.
pub open spec fn spec_find_lines(
    entries: Seq<Entry>,
    hidden: Seq<bool>,
    contents: Seq<Option<String>>,
    include_hidden: bool,
    extension: Option<String>,
    mindepth: Option<usize>,
    maxdepth: Option<usize>,
    pat: Seq<char>,
) -> Seq<Seq<char>> {
    spec_find_lines_upto(
        entries,
        hidden,
        contents,
        include_hidden,
        extension,
        mindepth,
        maxdepth,
        pat,
        entries.len() as int,
    )
}

/// The paths of the consumed files in which the match report finds at
/// least one match, for the first `i` entries: its file-only output.
pub open spec fn spec_find_file_paths_upto(
    entries: Seq<Entry>,
    hidden: Seq<bool>,
    contents: Seq<Option<String>>,
    include_hidden: bool,
    extension: Option<String>,
    mindepth: Option<usize>,
    maxdepth: Option<usize>,
    pat: Seq<char>,
    i: int,
) -> Seq<Seq<char>>
    decreases i,
{
    if i <= 0 {
        Seq::empty()
    } else {
        spec_find_file_paths_upto(
            entries,
            hidden,
            contents,
            include_hidden,
            extension,
            mindepth,
            maxdepth,
            pat,
            i - 1,
        ) + if spec_file_selected(
            entries[i - 1],
            hidden[i - 1],
            include_hidden,
            extension,
            mindepth,
            maxdepth,
        ) && contents[i - 1] is Some && spec_find_file(
            entries[i - 1].path@,
            contents[i - 1].unwrap()@,
            pat,
        ).len() > 0 {
            seq![entries[i - 1].path@]
        } else {
            Seq::<Seq<char>>::empty()
        }
    }
}

/// The file-only output of the match report: the paths of the files it
/// reports at least one match in.
pub open spec fn spec_find_file_paths(
    entries: Seq<Entry>,
    hidden: Seq<bool>,
    contents: Seq<Option<String>>,
    include_hidden: bool,
    extension: Option<String>,
    mindepth: Option<usize>,
    maxdepth: Option<usize>,
    pat: Seq<char>,
) -> Seq<Seq<char>> {
    spec_find_file_paths_upto(
        entries,
        hidden,
        contents,
        include_hidden,
        extension,
        mindepth,
        maxdepth,
        pat,
        entries.len() as int,
    )
}

proof fn lemma_line_records_upto_len(
    path: Seq<char>,
    ln: int,
    line: Seq<char>,
    ms: Seq<(usize, usize, Seq<char>)>,
    j: int,
)
    requires
        j >= 0,
    ensures
        spec_line_records_upto(path, ln, line, ms, j).len() == j,
    decreases j,
{
    if j > 0 {
        lemma_line_records_upto_len(path, ln, line, ms, j - 1);
    }
}

proof fn lemma_file_records_upto_mono(path: Seq<char>, lines: Seq<Seq<char>>, pat: Seq<char>, i: int)
    requires
        i >= 1,
    ensures
        spec_file_records_upto(path, lines, pat, i).len() >= spec_line_records(
            path,
            1,
            lines[0],
            regex_find_all(pat, lines[0]),
        ).len(),
    decreases i,
{
    if i == 1 {
    } else {
        lemma_file_records_upto_mono(path, lines, pat, i - 1);
    }
}

/// Under a pattern that matches every text, a non-empty file always
/// yields at least one match record.
pub proof fn spec_find_file_nonempty(path: Seq<char>, text: Seq<char>, pat: Seq<char>)
    requires
        text.len() > 0,
        forall|t: Seq<char>| regex_is_match(pat, t),
    ensures
        spec_find_file(path, text, pat).len() > 0,
{
    let lines = spec_lines(text);
    lemma_spec_lines_nonempty(text);
    assert(regex_is_match(pat, lines[0]));
    let ms = regex_find_all(pat, lines[0]);
    lemma_line_records_upto_len(path, 1, lines[0], ms, ms.len() as int);
    lemma_file_records_upto_mono(path, lines, pat, lines.len() as int);
    assert(regex_is_match(pat, text));
}

/// Renders one match record.
fn build_find_record(path: &str, ln: usize, start: usize, end: usize, mtext: &str) -> (r: String)
    ensures
        r@ == spec_find_record(path@, ln as int, start as int, end as int, mtext@),
{
    let mut s = String::from_str(path);
    s.append(" ");
    let d1 = dec_str(ln);
    s.append(d1.as_str());
    s.append(":");
    let d2 = dec_str(start);
    s.append(d2.as_str());
    s.append("-");
    let d3 = dec_str(end);
    s.append(d3.as_str());
    s.append(" [ ");
    s.append(mtext);
    s.append(" ]");
    proof {
        assert(s@ =~= spec_find_record(path@, ln as int, start as int, end as int, mtext@));
    }
    s
}

/// The match-report operation.
pub struct FindCommand {}

impl FindCommand {
    /// Emits one record per pattern match in the consumed files. Fails
    /// when the traversal root does not exist, when the pattern does not
    /// compile (with the compiler's message verbatim), and when handed a
    /// request for a different operation.
    pub fn execute(subcmd: Recurse, tree: &TreeSnapshot) -> (r: Result<
        Vec<String>,
        RecurseError,
    >)
        requires
            tree.wf(),
        ensures
            match subcmd {
                Recurse::Find { extension, hidden, mindepth, maxdepth, symlinks, find, inpath } => {
                    if !tree.root_exists {
                        match r {
                            Err(RecurseError::MissingRoot(p)) => p@ == inpath@,
                            _ => false,
                        }
                    } else if !regex_valid(find@) {
                        match r {
                            Err(RecurseError::Pattern(m)) => m@ == regex_error_of(find@),
                            _ => false,
                        }
                    } else {
                        match r {
                            Ok(lines) => views_of(lines@) == spec_find_lines(
                                tree.entries@,
                                tree.hidden@,
                                tree.contents@,
                                hidden,
                                extension,
                                mindepth,
                                maxdepth,
                                find@,
                            ),
                            _ => false,
                        }
                    }
                },
                _ => match r {
                    Err(RecurseError::ParseFailure(c)) => c@ == "find"@,
                    _ => false,
                },
            },
    {
        if let Recurse::Find { extension, hidden, mindepth, maxdepth, symlinks: _, find, inpath } =
            subcmd {
            if !tree.root_exists {
                return Err(RecurseError::MissingRoot(inpath));
            }
            if let Err(msg) = rx_validate(find.as_str()) {
                return Err(RecurseError::Pattern(msg));
            }
            let mut out: Vec<String> = Vec::new();
            let n = tree.entries.len();
            let mut i: usize = 0;
            while i < n
                invariant
                    i <= n,
                    n == tree.entries@.len(),
                    tree.hidden@.len() == n,
                    tree.contents@.len() == n,
                    regex_valid(find@),
                    views_of(out@) == spec_find_lines_upto(
                        tree.entries@,
                        tree.hidden@,
                        tree.contents@,
                        hidden,
                        extension,
                        mindepth,
                        maxdepth,
                        find@,
                        i as int,
                    ),
                decreases n - i,
            {
                let ghost out_before = views_of(out@);
                let e = &tree.entries[i];
                let hid = tree.hidden[i];
                if file_selected(e, hid, hidden, &extension, &mindepth, &maxdepth) {
                    match &tree.contents[i] {
                        Some(c) => {
                            if rx_is_match(find.as_str(), c.as_str()) {
                                let file_lines = split_lines(c.as_str());
                                let ghost slines = spec_lines(c@);
                                let m = file_lines.len();
                                let mut li: usize = 0;
                                while li < m
                                    invariant
                                        li <= m,
                                        m == slines.len(),
                                        views_of(file_lines@) == slines,
                                        regex_valid(find@),
                                        regex_is_match(find@, c@),
                                        views_of(out@) == out_before + spec_file_records_upto(
                                            e.path@,
                                            slines,
                                            find@,
                                            li as int,
                                        ),
                                    decreases m - li,
                                {
                                    let ghost line_before = views_of(out@);
                                    let line = &file_lines[li];
                                    let ms = rx_matches(find.as_str(), line.as_str());
                                    let ghost sms = regex_find_all(find@, slines[li as int]);
                                    let mn = ms.len();
                                    let mut mi: usize = 0;
                                    while mi < mn
                                        invariant
                                            mi <= mn,
                                            mn == sms.len(),
                                            matches_view(ms@) == sms,
                                            li < m,
                                            m == slines.len(),
                                            line@ == slines[li as int],
                                            views_of(out@) == line_before
                                                + spec_line_records_upto(
                                                e.path@,
                                                li as int + 1,
                                                slines[li as int],
                                                sms,
                                                mi as int,
                                            ),
                                        decreases mn - mi,
                                    {
                                        let mt = &ms[mi];
                                        let cs = char_offset_of(line.as_str(), mt.start);
                                        let ce = char_offset_of(line.as_str(), mt.end);
                                        let rec = build_find_record(
                                            e.path.as_str(),
                                            li + 1,
                                            cs,
                                            ce,
                                            mt.text.as_str(),
                                        );
                                        let ghost obefore = out@;
                                        let ghost grec = rec;
                                        out.push(rec);
                                        proof {
                                            lemma_views_of_push(obefore, grec);
                                            assert(sms[mi as int] == matches_view(
                                                ms@,
                                            )[mi as int]);
                                            assert(line@ == slines[li as int]);
                                            assert(grec@ == spec_find_record(
                                                e.path@,
                                                li as int + 1,
                                                spec_char_offset(
                                                    slines[li as int],
                                                    sms[mi as int].0 as int,
                                                ),
                                                spec_char_offset(
                                                    slines[li as int],
                                                    sms[mi as int].1 as int,
                                                ),
                                                sms[mi as int].2,
                                            ));
                                            assert(views_of(out@) =~= line_before
                                                + spec_line_records_upto(
                                                e.path@,
                                                li as int + 1,
                                                slines[li as int],
                                                sms,
                                                mi as int + 1,
                                            ));
                                        }
                                        mi += 1;
                                    }
                                    proof {
                                        assert(views_of(out@) =~= out_before
                                            + spec_file_records_upto(
                                            e.path@,
                                            slines,
                                            find@,
                                            li as int + 1,
                                        ));
                                    }
                                    li += 1;
                                }
                                proof {
                                    assert(views_of(out@) =~= out_before + spec_find_file(
                                        e.path@,
                                        c@,
                                        find@,
                                    ));
                                }
                            }
                        },
                        None => {},
                    }
                }
                proof {
                    assert(views_of(out@) =~= spec_find_lines_upto(
                        tree.entries@,
                        tree.hidden@,
                        tree.contents@,
                        hidden,
                        extension,
                        mindepth,
                        maxdepth,
                        find@,
                        i + 1,
                    ));
                }
                i += 1;
            }
            Ok(out)
        } else {
            Err(RecurseError::ParseFailure(String::from_str("find")))
        }
    }
}

} // verus!

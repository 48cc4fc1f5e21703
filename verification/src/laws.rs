//! Relations between the operations, stated and proved once and for
//! all: the listing and the content operations agree on which files they
//! surface under an always-matching pattern, a substitution run whose
//! replacements leave no fresh matches is a no-op when repeated, and
//! every planned backup carries exactly the text the substitution
//! started from.

use vstd::prelude::*;

use crate::contains::spec_contains_emit;
use crate::contains::spec_contains_lines;
use crate::contains::spec_contains_lines_upto;
use crate::find::spec_find_file_paths;
use crate::find::spec_find_file_paths_upto;
use crate::find::spec_find_file_nonempty;
use crate::model::Entry;
use crate::paths::spec_backup_path;
use crate::pipeline::spec_file_selected;
use crate::replace::spec_replace_emit;
use crate::replace::spec_replace_updates;
use crate::replace::spec_replace_updates_upto;
use crate::replace::spec_update_for;
use crate::rx::regex_is_match;
use crate::rx::regex_replace_all;
use crate::walk::spec_walk_emit;
use crate::walk::spec_walk_lines;
use crate::walk::spec_walk_lines_upto;

verus! {

proof fn law_list_contains_upto(
    entries: Seq<Entry>,
    hidden: Seq<bool>,
    contents: Seq<Option<String>>,
    include_hidden: bool,
    extension: Option<String>,
    mindepth: Option<usize>,
    maxdepth: Option<usize>,
    pat: Seq<char>,
    i: int,
)
    requires
        i <= entries.len(),
        contents.len() == entries.len(),
        forall|k: int| 0 <= k < contents.len() ==> #[trigger] contents[k] is Some,
        forall|t: Seq<char>| regex_is_match(pat, t),
    ensures
        spec_contains_lines_upto(
            entries,
            hidden,
            contents,
            include_hidden,
            extension,
            mindepth,
            maxdepth,
            pat,
            i,
        ) == spec_walk_lines_upto(
            entries,
            hidden,
            false,
            include_hidden,
            extension,
            mindepth,
            maxdepth,
            i,
        ),
    decreases i,
{
    if i > 0 {
        law_list_contains_upto(
            entries,
            hidden,
            contents,
            include_hidden,
            extension,
            mindepth,
            maxdepth,
            pat,
            i - 1,
        );
        assert(regex_is_match(pat, contents[i - 1].unwrap()@));
        assert(spec_contains_emit(
            entries[i - 1],
            hidden[i - 1],
            contents[i - 1],
            include_hidden,
            extension,
            mindepth,
            maxdepth,
            pat,
        ) == spec_walk_emit(
            entries[i - 1],
            hidden[i - 1],
            false,
            include_hidden,
            extension,
            mindepth,
            maxdepth,
        ));
    }
}

/// For every tree and filter, the content test with an always-matching
/// pattern over fully decoded files surfaces exactly the files the
/// listing surfaces, line for line.
pub proof fn law_list_contains_agree(
    entries: Seq<Entry>,
    hidden: Seq<bool>,
    contents: Seq<Option<String>>,
    include_hidden: bool,
    extension: Option<String>,
    mindepth: Option<usize>,
    maxdepth: Option<usize>,
    pat: Seq<char>,
)
    requires
        contents.len() == entries.len(),
        forall|k: int| 0 <= k < contents.len() ==> #[trigger] contents[k] is Some,
        forall|t: Seq<char>| regex_is_match(pat, t),
    ensures
        spec_contains_lines(
            entries,
            hidden,
            contents,
            include_hidden,
            extension,
            mindepth,
            maxdepth,
            pat,
        ) == spec_walk_lines(entries, hidden, false, include_hidden, extension, mindepth, maxdepth),
{
    law_list_contains_upto(
        entries,
        hidden,
        contents,
        include_hidden,
        extension,
        mindepth,
        maxdepth,
        pat,
        entries.len() as int,
    );
}

proof fn law_list_find_upto(
    entries: Seq<Entry>,
    hidden: Seq<bool>,
    contents: Seq<Option<String>>,
    include_hidden: bool,
    extension: Option<String>,
    mindepth: Option<usize>,
    maxdepth: Option<usize>,
    pat: Seq<char>,
    i: int,
)
    requires
        i <= entries.len(),
        contents.len() == entries.len(),
        forall|k: int| 0 <= k < contents.len() ==> #[trigger] contents[k] is Some
            && contents[k].unwrap()@.len() > 0,
        forall|t: Seq<char>| regex_is_match(pat, t),
    ensures
        spec_find_file_paths_upto(
            entries,
            hidden,
            contents,
            include_hidden,
            extension,
            mindepth,
            maxdepth,
            pat,
            i,
        ) == spec_walk_lines_upto(
            entries,
            hidden,
            false,
            include_hidden,
            extension,
            mindepth,
            maxdepth,
            i,
        ),
    decreases i,
{
    if i > 0 {
        law_list_find_upto(
            entries,
            hidden,
            contents,
            include_hidden,
            extension,
            mindepth,
            maxdepth,
            pat,
            i - 1,
        );
        if spec_file_selected(
            entries[i - 1],
            hidden[i - 1],
            include_hidden,
            extension,
            mindepth,
            maxdepth,
        ) {
            spec_find_file_nonempty(entries[i - 1].path@, contents[i - 1].unwrap()@, pat);
        }
    }
}

/// For every tree and filter, the match report with an always-matching
/// pattern over fully decoded, non-empty files reports matches in
/// exactly the files the listing surfaces, file for file.
pub proof fn law_list_find_agree(
    entries: Seq<Entry>,
    hidden: Seq<bool>,
    contents: Seq<Option<String>>,
    include_hidden: bool,
    extension: Option<String>,
    mindepth: Option<usize>,
    maxdepth: Option<usize>,
    pat: Seq<char>,
)
    requires
        contents.len() == entries.len(),
        forall|k: int| 0 <= k < contents.len() ==> #[trigger] contents[k] is Some
            && contents[k].unwrap()@.len() > 0,
        forall|t: Seq<char>| regex_is_match(pat, t),
    ensures
        spec_find_file_paths(
            entries,
            hidden,
            contents,
            include_hidden,
            extension,
            mindepth,
            maxdepth,
            pat,
        ) == spec_walk_lines(entries, hidden, false, include_hidden, extension, mindepth, maxdepth),
{
    law_list_find_upto(
        entries,
        hidden,
        contents,
        include_hidden,
        extension,
        mindepth,
        maxdepth,
        pat,
        entries.len() as int,
    );
}

proof fn law_replace_idempotent_upto(
    entries: Seq<Entry>,
    hidden: Seq<bool>,
    contents: Seq<Option<String>>,
    contents2: Seq<Option<String>>,
    include_hidden: bool,
    extension: Option<String>,
    mindepth: Option<usize>,
    maxdepth: Option<usize>,
    pat: Seq<char>,
    rep: Seq<char>,
    nobu2: bool,
    i: int,
)
    requires
        i <= entries.len(),
        contents.len() == entries.len(),
        contents2.len() == entries.len(),
        forall|k: int|
            0 <= k < entries.len() && #[trigger] spec_replace_emit(
                entries[k],
                hidden[k],
                contents[k],
                include_hidden,
                extension,
                mindepth,
                maxdepth,
                pat,
            ) ==> contents2[k] is Some && contents2[k].unwrap()@ == regex_replace_all(
                pat,
                contents[k].unwrap()@,
                rep,
            ) && !regex_is_match(pat, contents2[k].unwrap()@),
        forall|k: int|
            0 <= k < entries.len() && !(#[trigger] spec_replace_emit(
                entries[k],
                hidden[k],
                contents[k],
                include_hidden,
                extension,
                mindepth,
                maxdepth,
                pat,
            )) ==> contents2[k] == contents[k],
    ensures
        spec_replace_updates_upto(
            entries,
            hidden,
            contents2,
            include_hidden,
            extension,
            mindepth,
            maxdepth,
            pat,
            rep,
            nobu2,
            i,
        ) == Seq::<(Seq<char>, Option<(Seq<char>, Seq<char>)>, Seq<char>, Seq<char>)>::empty(),
    decreases i,
{
    if i > 0 {
        law_replace_idempotent_upto(
            entries,
            hidden,
            contents,
            contents2,
            include_hidden,
            extension,
            mindepth,
            maxdepth,
            pat,
            rep,
            nobu2,
            i - 1,
        );
        let k = i - 1;
        if spec_replace_emit(
            entries[k],
            hidden[k],
            contents[k],
            include_hidden,
            extension,
            mindepth,
            maxdepth,
            pat,
        ) {
            assert(!regex_is_match(pat, contents2[k].unwrap()@));
        } else {
            assert(contents2[k] == contents[k]);
        }
        assert(!spec_replace_emit(
            entries[k],
            hidden[k],
            contents2[k],
            include_hidden,
            extension,
            mindepth,
            maxdepth,
            pat,
        ));
        assert(spec_replace_updates_upto(
            entries,
            hidden,
            contents2,
            include_hidden,
            extension,
            mindepth,
            maxdepth,
            pat,
            rep,
            nobu2,
            i,
        ) =~= Seq::<(Seq<char>, Option<(Seq<char>, Seq<char>)>, Seq<char>, Seq<char>)>::empty());
    }
}

/// Substitution is idempotent when its replacements leave no fresh
/// matches: after a run whose substituted texts the pattern no longer
/// matches, a second run over the resulting tree plans no update and no
/// output line, whatever its backup setting.
pub proof fn law_replace_idempotent(
    entries: Seq<Entry>,
    hidden: Seq<bool>,
    contents: Seq<Option<String>>,
    contents2: Seq<Option<String>>,
    include_hidden: bool,
    extension: Option<String>,
    mindepth: Option<usize>,
    maxdepth: Option<usize>,
    pat: Seq<char>,
    rep: Seq<char>,
    nobu2: bool,
)
    requires
        contents.len() == entries.len(),
        contents2.len() == entries.len(),
        forall|k: int|
            0 <= k < entries.len() && #[trigger] spec_replace_emit(
                entries[k],
                hidden[k],
                contents[k],
                include_hidden,
                extension,
                mindepth,
                maxdepth,
                pat,
            ) ==> contents2[k] is Some && contents2[k].unwrap()@ == regex_replace_all(
                pat,
                contents[k].unwrap()@,
                rep,
            ) && !regex_is_match(pat, contents2[k].unwrap()@),
        forall|k: int|
            0 <= k < entries.len() && !(#[trigger] spec_replace_emit(
                entries[k],
                hidden[k],
                contents[k],
                include_hidden,
                extension,
                mindepth,
                maxdepth,
                pat,
            )) ==> contents2[k] == contents[k],
    ensures
        spec_replace_updates(
            entries,
            hidden,
            contents2,
            include_hidden,
            extension,
            mindepth,
            maxdepth,
            pat,
            rep,
            nobu2,
        ) == Seq::<(Seq<char>, Option<(Seq<char>, Seq<char>)>, Seq<char>, Seq<char>)>::empty(),
{
    law_replace_idempotent_upto(
        entries,
        hidden,
        contents,
        contents2,
        include_hidden,
        extension,
        mindepth,
        maxdepth,
        pat,
        rep,
        nobu2,
        entries.len() as int,
    );
}

/// What must hold of every update a backed-up substitution run plans:
/// the backup is present, sits at the file's derived backup path, and
/// holds the pre-substitution text; the text that overwrites the file is
/// exactly that text's substitution; and the confirmation line names the
/// file.
pub open spec fn spec_backup_ok(
    u: (Seq<char>, Option<(Seq<char>, Seq<char>)>, Seq<char>, Seq<char>),
    pat: Seq<char>,
    rep: Seq<char>,
) -> bool {
    &&& u.1 is Some
    &&& u.1.unwrap().0 == spec_backup_path(u.0)
    &&& u.2 == regex_replace_all(pat, u.1.unwrap().1, rep)
    &&& u.3 == u.0 + " updated"@
}

proof fn law_backup_correct_upto(
    entries: Seq<Entry>,
    hidden: Seq<bool>,
    contents: Seq<Option<String>>,
    include_hidden: bool,
    extension: Option<String>,
    mindepth: Option<usize>,
    maxdepth: Option<usize>,
    pat: Seq<char>,
    rep: Seq<char>,
    i: int,
)
    requires
        i <= entries.len(),
    ensures
        forall|j: int|
            0 <= j < spec_replace_updates_upto(
                entries,
                hidden,
                contents,
                include_hidden,
                extension,
                mindepth,
                maxdepth,
                pat,
                rep,
                false,
                i,
            ).len() ==> spec_backup_ok(
                #[trigger] spec_replace_updates_upto(
                    entries,
                    hidden,
                    contents,
                    include_hidden,
                    extension,
                    mindepth,
                    maxdepth,
                    pat,
                    rep,
                    false,
                    i,
                )[j],
                pat,
                rep,
            ),
    decreases i,
{
    if i > 0 {
        law_backup_correct_upto(
            entries,
            hidden,
            contents,
            include_hidden,
            extension,
            mindepth,
            maxdepth,
            pat,
            rep,
            i - 1,
        );
        let prev = spec_replace_updates_upto(
            entries,
            hidden,
            contents,
            include_hidden,
            extension,
            mindepth,
            maxdepth,
            pat,
            rep,
            false,
            i - 1,
        );
        let cur = spec_replace_updates_upto(
            entries,
            hidden,
            contents,
            include_hidden,
            extension,
            mindepth,
            maxdepth,
            pat,
            rep,
            false,
            i,
        );
        assert forall|j: int| 0 <= j < cur.len() implies spec_backup_ok(cur[j], pat, rep) by {
            if j < prev.len() {
                assert(cur[j] == prev[j]);
            } else {
                assert(cur[j] == spec_update_for(
                    entries[i - 1],
                    contents[i - 1].unwrap(),
                    pat,
                    rep,
                    false,
                ));
            }
        }
    }
}

/// After a successful substitution run with backups on, every planned
/// backup holds the file's pre-substitution text at the derived backup
/// path, and the text that overwrites the file is the substitution of
/// exactly that backed-up text.
pub proof fn law_backup_correct(
    entries: Seq<Entry>,
    hidden: Seq<bool>,
    contents: Seq<Option<String>>,
    include_hidden: bool,
    extension: Option<String>,
    mindepth: Option<usize>,
    maxdepth: Option<usize>,
    pat: Seq<char>,
    rep: Seq<char>,
)
    ensures
        forall|j: int|
            0 <= j < spec_replace_updates(
                entries,
                hidden,
                contents,
                include_hidden,
                extension,
                mindepth,
                maxdepth,
                pat,
                rep,
                false,
            ).len() ==> spec_backup_ok(
                #[trigger] spec_replace_updates(
                    entries,
                    hidden,
                    contents,
                    include_hidden,
                    extension,
                    mindepth,
                    maxdepth,
                    pat,
                    rep,
                    false,
                )[j],
                pat,
                rep,
            ),
{
    law_backup_correct_upto(
        entries,
        hidden,
        contents,
        include_hidden,
        extension,
        mindepth,
        maxdepth,
        pat,
        rep,
        entries.len() as int,
    );
}

} // verus!

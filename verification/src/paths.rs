//! Path predicates: extension extraction and the tolerant extension
//! filter, hidden-path detection over canonicalized paths, the backup
//! path derivation, and the filesystem-root sentinel guard.
//!
//! Paths are modelled as character sequences; both conventional separator
//! characters are recognized, so the predicates behave alike on the two
//! path-separator styles.

use vstd::prelude::*;
use vstd::string::*;

use crate::errors::RecurseError;
use crate::text::str_eq;

verus! {

/// Whether a character separates path segments.
pub open spec fn is_sep(c: char) -> bool {
    c == '/' || c == '\\'
}

/// The index where the final path segment (the file name) begins: the
/// position just after the last separator, or zero if there is none.
pub open spec fn spec_base_start(s: Seq<char>) -> int
    decreases s.len(),
{
    if s.len() == 0 {
        0
    } else if is_sep(s.last()) {
        s.len() as int
    } else {
        spec_base_start(s.drop_last())
    }
}

/// The final path segment.
pub open spec fn spec_file_name(p: Seq<char>) -> Seq<char> {
    p.skip(spec_base_start(p))
}

/// The index of the last dot in a file name, or -1 if it has none.
pub open spec fn spec_last_dot(s: Seq<char>) -> int
    decreases s.len(),
{
    if s.len() == 0 {
        -1
    } else if s.last() == '.' {
        s.len() - 1
    } else {
        spec_last_dot(s.drop_last())
    }
}

/// The extension of a path: the part of its file name after the last dot.
/// A name with no dot, a name whose only dot is its first character (a
/// hidden file), and the parent-directory name have no extension.
pub open spec fn spec_extension(p: Seq<char>) -> Option<Seq<char>> {
    let name = spec_file_name(p);
    if name == seq!['.', '.'] {
        None
    } else {
        let d = spec_last_dot(name);
        if d <= 0 {
            None
        } else {
            Some(name.skip(d + 1))
        }
    }
}

/// An extension filter with a leading dot means the same filter without
/// it: both ".txt" and "txt" ask for the extension "txt".
pub open spec fn spec_normalized_filter(f: Seq<char>) -> Seq<char> {
    if f.len() > 0 && f[0] == '.' {
        f.skip(1)
    } else {
        f
    }
}

/// Whether the path's extension equals the (normalized) filter. A path
/// with no extension matches no filter.
pub open spec fn spec_path_has_extension(p: Seq<char>, f: Seq<char>) -> bool {
    match spec_extension(p) {
        Some(e) => e == spec_normalized_filter(f),
        None => false,
    }
}

/// A path is hidden when some segment of it begins with a dot.
pub open spec fn spec_is_hidden(s: Seq<char>) -> bool {
    exists|i: int| 0 <= i < s.len() && #[trigger] s[i] == '.' && (i == 0 || is_sep(s[i - 1]))
}

/// The single-character paths naming the top of a filesystem hierarchy,
/// in either path-separator style.
pub open spec fn spec_is_root(p: Seq<char>) -> bool {
    p == "/"@ || p == "\\"@
}

/// The sibling path the pre-substitution copy of a file is written to.
pub open spec fn spec_backup_path(p: Seq<char>) -> Seq<char> {
    p + ".bu"@
}

/// Whether a path already carries the backup extension.
pub open spec fn spec_has_backup_extension(p: Seq<char>) -> bool {
    spec_extension(p) == Some("bu"@)
}

proof fn lemma_base_start_at(s: Seq<char>, b: int)
    requires
        0 <= b <= s.len(),
        forall|k: int| b <= k < s.len() ==> !is_sep(s[k]),
        b == 0 || is_sep(s[b - 1]),
    ensures
        spec_base_start(s) == b,
    decreases s.len(),
{
    if s.len() == 0 {
    } else if is_sep(s.last()) {
        assert(b == s.len());
    } else {
        assert(b < s.len());
        assert(forall|k: int| b <= k < s.drop_last().len() ==> !is_sep(s.drop_last()[k]));
        lemma_base_start_at(s.drop_last(), b);
    }
}

proof fn lemma_last_dot_at(s: Seq<char>, d: int)
    requires
        -1 <= d < s.len(),
        d >= 0 ==> s[d] == '.',
        forall|k: int| d < k < s.len() ==> s[k] != '.',
    ensures
        spec_last_dot(s) == d,
    decreases s.len(),
{
    if s.len() == 0 {
    } else if s.last() == '.' {
        assert(d == s.len() - 1);
    } else {
        assert(d < s.len() - 1);
        assert(forall|k: int| d < k < s.drop_last().len() ==> s.drop_last()[k] != '.');
        lemma_last_dot_at(s.drop_last(), d);
    }
}

fn scan_base_start(p: &str, b: usize) -> (r: usize)
    requires
        b <= p@.len(),
        forall|k: int| b <= k < p@.len() ==> !is_sep(p@[k]),
    ensures
        r as int == spec_base_start(p@),
        r <= p@.len(),
    decreases b,
{
    if b == 0 {
        proof {
            lemma_base_start_at(p@, 0);
        }
        0
    } else {
        let c = p.get_char(b - 1);
        if c == '/' || c == '\\' {
            proof {
                lemma_base_start_at(p@, b as int);
            }
            b
        } else {
            scan_base_start(p, b - 1)
        }
    }
}

fn scan_last_dot(p: &str, base: usize, e: usize) -> (r: Option<usize>)
    requires
        base <= e,
        e <= p@.len(),
        forall|k: int| e <= k < p@.len() ==> p@[k] != '.',
    ensures
        match r {
            Some(i) => base <= i < p@.len() && p@[i as int] == '.' && (forall|k: int|
                i < k < p@.len() ==> p@[k] != '.'),
            None => forall|k: int| base <= k < p@.len() ==> p@[k] != '.',
        },
    decreases e - base,
{
    if e == base {
        None
    } else {
        let c = p.get_char(e - 1);
        if c == '.' {
            Some(e - 1)
        } else {
            scan_last_dot(p, base, e - 1)
        }
    }
}

/// The extension of the path, as `spec_extension` gives it.
pub fn extension_of<'a>(p: &'a str) -> (r: Option<&'a str>)
    ensures
        match r {
            Some(e) => spec_extension(p@) == Some(e@),
            None => spec_extension(p@) is None,
        },
{
    let len = p.unicode_len();
    let b = scan_base_start(p, len);
    let ghost name = spec_file_name(p@);
    proof {
        assert(name.len() == len - b);
        assert(forall|j: int| 0 <= j < name.len() ==> name[j] == p@[b + j]);
    }
    if len - b == 2 && p.get_char(b) == '.' && p.get_char(b + 1) == '.' {
        proof {
            assert(name =~= seq!['.', '.']);
        }
        return None;
    }
    proof {
        assert(name != seq!['.', '.']);
    }
    match scan_last_dot(p, b, len) {
        None => {
            proof {
                assert(forall|j: int| 0 <= j < name.len() ==> name[j] == p@[b + j]);
                lemma_last_dot_at(name, -1);
            }
            None
        },
        Some(i) => {
            proof {
                assert(forall|j: int| 0 <= j < name.len() ==> name[j] == p@[b + j]);
                lemma_last_dot_at(name, i - b);
            }
            if i == b {
                None
            } else {
                let e = p.substring_char(i + 1, len);
                proof {
                    assert(e@ =~= name.skip(i - b + 1));
                }
                Some(e)
            }
        },
    }
}

/// Whether the path carries the extension the filter asks for, with a
/// leading dot in the filter tolerated.
pub fn path_has_extension(filepath: &str, extension: &str) -> (r: bool)
    ensures
        r == spec_path_has_extension(filepath@, extension@),
{
    match extension_of(filepath) {
        None => false,
        Some(e) => {
            let flen = extension.unicode_len();
            if flen > 0 && extension.get_char(0) == '.' {
                let norm = extension.substring_char(1, flen);
                proof {
                    assert(norm@ =~= spec_normalized_filter(extension@));
                }
                str_eq(e, norm)
            } else {
                str_eq(e, extension)
            }
        },
    }
}

/// For a filter that does not itself begin with a dot, prefixing one
/// changes nothing: both spellings ask for the same extension.
pub proof fn lemma_extension_filter_dot_tolerant(p: Seq<char>, f: Seq<char>)
    requires
        f.len() == 0 || f[0] != '.',
    ensures
        spec_path_has_extension(p, seq!['.'] + f) == spec_path_has_extension(p, f),
{
    let dotted = seq!['.'] + f;
    assert(dotted[0] == '.');
    assert(spec_normalized_filter(dotted) =~= f);
    assert(spec_normalized_filter(f) == f);
}

/// Scans a canonicalized path for a dot-prefixed segment.
pub fn canonical_path_is_hidden(path: &str) -> (r: bool)
    ensures
        r == spec_is_hidden(path@),
{
    let len = path.unicode_len();
    let mut i: usize = 0;
    while i < len
        invariant
            i <= len,
            len == path@.len(),
            forall|k: int| 0 <= k < i ==> !(#[trigger] path@[k] == '.' && (k == 0 || is_sep(
                path@[k - 1],
            ))),
        decreases len - i,
    {
        let c = path.get_char(i);
        if c == '.' {
            if i == 0 {
                assert(spec_is_hidden(path@)) by {
                    assert(path@[0] == '.');
                }
                return true;
            }
            let prev = path.get_char(i - 1);
            if prev == '/' || prev == '\\' {
                assert(spec_is_hidden(path@)) by {
                    assert(path@[i as int] == '.' && is_sep(path@[i as int - 1]));
                }
                return true;
            }
        }
        i += 1;
    }
    false
}

/// Whether the path is exactly a filesystem-root sentinel.
pub fn is_root_filepath(inpath: &str) -> (r: bool)
    ensures
        r == spec_is_root(inpath@),
{
    if str_eq(inpath, "/") {
        true
    } else {
        str_eq(inpath, "\\")
    }
}

/// The backup path for a file: the file's path with the backup extension
/// appended after its own.
pub fn get_backup_filepath(inpath: &str) -> (r: String)
    ensures
        r@ == spec_backup_path(inpath@),
{
    let s = String::from_str(inpath);
    s.concat(".bu")
}

/// Whether the file already is a backup written by a substitution run.
pub fn has_backup_extension(inpath: &str) -> (r: bool)
    ensures
        r == spec_has_backup_extension(inpath@),
{
    match extension_of(inpath) {
        Some(e) => str_eq(e, "bu"),
        None => false,
    }
}

/// Relies on std::path::Path::canonicalize: resolves a path to its
/// canonical absolute form, failing when the path does not exist or a
/// non-final component is not a directory. The result depends on the
/// filesystem, so nothing is assumed of it.
#[verifier::external_body]
pub fn get_absolute_filepath(filepath: &str) -> Result<String, RecurseError> {
    match std::path::Path::new(filepath).canonicalize() {
        Ok(pb) => Ok(pb.to_string_lossy().into_owned()),
        Err(error) => Err(RecurseError::Io(error.to_string())),
    }
}

/// The hidden decision over a resolution outcome: a resolved canonical
/// form is scanned for a dot-prefixed segment; a path that could not be
/// resolved (for instance one that does not exist) is not hidden.
pub open spec fn spec_hidden_for_resolution(resolved: Result<String, RecurseError>) -> bool {
    match resolved {
        Ok(abs) => spec_is_hidden(abs@),
        Err(_) => false,
    }
}

/// Decides hiddenness from a resolution outcome, as
/// `spec_hidden_for_resolution` says.
pub fn hidden_for_resolution(resolved: Result<String, RecurseError>) -> (r: bool)
    ensures
        r == spec_hidden_for_resolution(resolved),
{
    match resolved {
        Ok(abs) => canonical_path_is_hidden(abs.as_str()),
        Err(_) => false,
    }
}

/// Whether the canonical absolute form of the path contains a
/// dot-prefixed segment. What the resolution returns depends on the
/// filesystem; everything after it is `hidden_for_resolution`, whose
/// contract pins the decision down for either outcome.
pub fn path_is_hidden(filepath: &str) -> bool {
    hidden_for_resolution(get_absolute_filepath(filepath))
}

} // verus!

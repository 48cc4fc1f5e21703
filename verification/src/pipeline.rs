//! The filter pipeline: which traversal entries an operation consumes.
//! Every operation takes files inside the requested depth band that pass
//! the hidden-path exclusion (unless hidden paths were opted in) and the
//! extension filter (if one was supplied); the listing operation can take
//! directories instead, and the substitution operation additionally
//! refuses files that already carry the backup extension.

use vstd::prelude::*;

use crate::model::Entry;
use crate::paths::has_backup_extension;
use crate::paths::path_has_extension;
use crate::paths::spec_has_backup_extension;
use crate::paths::spec_path_has_extension;

verus! {

/// Whether a depth lies inside the requested band. An unset bound does
/// not constrain; a band with its minimum above its maximum selects
/// nothing.
pub open spec fn spec_depth_ok(depth: usize, mindepth: Option<usize>, maxdepth: Option<
    usize,
>) -> bool {
    &&& match mindepth {
        Some(m) => depth >= m,
        None => true,
    }
    &&& match maxdepth {
        Some(m) => depth <= m,
        None => true,
    }
}

/// Whether a path passes the extension filter; no filter passes all.
pub open spec fn spec_ext_ok(path: Seq<char>, extension: Option<String>) -> bool {
    match extension {
        Some(f) => spec_path_has_extension(path, f@),
        None => true,
    }
}

/// Whether a file entry is consumed by an operation: a file in the depth
/// band, not on a hidden path unless hidden paths were opted in, passing
/// the extension filter.
pub open spec fn spec_file_selected(
    e: Entry,
    hid: bool,
    include_hidden: bool,
    extension: Option<String>,
    mindepth: Option<usize>,
    maxdepth: Option<usize>,
) -> bool {
    &&& e.is_file
    &&& spec_depth_ok(e.depth, mindepth, maxdepth)
    &&& include_hidden || !hid
    &&& spec_ext_ok(e.path@, extension)
}

/// Whether a directory entry is consumed by the directory listing: a
/// directory in the depth band, not on a hidden path unless hidden paths
/// were opted in. The extension filter does not apply to directories.
pub open spec fn spec_dir_selected(
    e: Entry,
    hid: bool,
    include_hidden: bool,
    mindepth: Option<usize>,
    maxdepth: Option<usize>,
) -> bool {
    &&& e.is_dir
    &&& spec_depth_ok(e.depth, mindepth, maxdepth)
    &&& include_hidden || !hid
}

/// Whether a file entry is consumed by the substitution operation: as
/// `spec_file_selected`, and not itself a backup written by an earlier
/// run.
pub open spec fn spec_replace_selected(
    e: Entry,
    hid: bool,
    include_hidden: bool,
    extension: Option<String>,
    mindepth: Option<usize>,
    maxdepth: Option<usize>,
) -> bool {
    &&& spec_file_selected(e, hid, include_hidden, extension, mindepth, maxdepth)
    &&& !spec_has_backup_extension(e.path@)
}

/// Whether a depth lies inside the requested band.
pub fn depth_ok(depth: usize, mindepth: &Option<usize>, maxdepth: &Option<usize>) -> (r: bool)
    ensures
        r == spec_depth_ok(depth, *mindepth, *maxdepth),
{
    let min_ok = match mindepth {
        Some(m) => depth >= *m,
        None => true,
    };
    let max_ok = match maxdepth {
        Some(m) => depth <= *m,
        None => true,
    };
    min_ok && max_ok
}

/// Whether a file entry is consumed by an operation.
pub fn file_selected(
    e: &Entry,
    hid: bool,
    include_hidden: bool,
    extension: &Option<String>,
    mindepth: &Option<usize>,
    maxdepth: &Option<usize>,
) -> (r: bool)
    ensures
        r == spec_file_selected(*e, hid, include_hidden, *extension, *mindepth, *maxdepth),
{
    if !e.is_file {
        return false;
    }
    if !depth_ok(e.depth, mindepth, maxdepth) {
        return false;
    }
    if !include_hidden && hid {
        return false;
    }
    match extension {
        Some(f) => path_has_extension(e.path.as_str(), f.as_str()),
        None => true,
    }
}

/// Whether a directory entry is consumed by the directory listing.
pub fn dir_selected(
    e: &Entry,
    hid: bool,
    include_hidden: bool,
    mindepth: &Option<usize>,
    maxdepth: &Option<usize>,
) -> (r: bool)
    ensures
        r == spec_dir_selected(*e, hid, include_hidden, *mindepth, *maxdepth),
{
    e.is_dir && depth_ok(e.depth, mindepth, maxdepth) && (include_hidden || !hid)
}

/// Whether a file entry is consumed by the substitution operation.
pub fn replace_selected(
    e: &Entry,
    hid: bool,
    include_hidden: bool,
    extension: &Option<String>,
    mindepth: &Option<usize>,
    maxdepth: &Option<usize>,
) -> (r: bool)
    ensures
        r == spec_replace_selected(*e, hid, include_hidden, *extension, *mindepth, *maxdepth),
{
    if has_backup_extension(e.path.as_str()) {
        false
    } else {
        file_selected(e, hid, include_hidden, extension, mindepth, maxdepth)
    }
}

/// Every entry an operation consumes lies inside the requested depth
/// band; in particular, when both bounds are set, its depth is between
/// them.
pub proof fn lemma_depth_bounds(
    e: Entry,
    hid: bool,
    include_hidden: bool,
    extension: Option<String>,
    mindepth: usize,
    maxdepth: usize,
)
    requires
        spec_file_selected(e, hid, include_hidden, extension, Some(mindepth), Some(maxdepth))
            || spec_dir_selected(e, hid, include_hidden, Some(mindepth), Some(maxdepth)),
    ensures
        mindepth <= e.depth <= maxdepth,
{
}

} // verus!

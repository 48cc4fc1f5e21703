//! The validated operation request a caller hands to the library: one of
//! the four operations with the filters and options it needs, and the
//! configuration wrapper around it.

use vstd::prelude::*;

verus! {

/// One fully validated operation request.
pub enum Recurse {
    /// Test for a pattern in text files and list the files that match.
    Contains {
        extension: Option<String>,
        hidden: bool,
        mindepth: Option<usize>,
        maxdepth: Option<usize>,
        symlinks: bool,
        find: String,
        inpath: String,
    },
    /// Report every pattern match in text files with its position.
    Find {
        extension: Option<String>,
        hidden: bool,
        mindepth: Option<usize>,
        maxdepth: Option<usize>,
        symlinks: bool,
        find: String,
        inpath: String,
    },
    /// Replace every pattern match in text files, in place, writing a
    /// backup of each touched file first unless that is switched off.
    Replace {
        extension: Option<String>,
        hidden: bool,
        nobu: bool,
        mindepth: Option<usize>,
        maxdepth: Option<usize>,
        symlinks: bool,
        find: String,
        replace: String,
        inpath: String,
    },
    /// Walk the tree and list the discovered paths.
    Walk {
        extension: Option<String>,
        dir_only: bool,
        hidden: bool,
        inpath: String,
        mindepth: Option<usize>,
        maxdepth: Option<usize>,
        symlinks: bool,
    },
}

/// A run's configuration: the requested operation.
pub struct Config {
    pub subcmd: Recurse,
}

impl Config {
    /// Wraps a validated request.
    pub fn new(opt: Recurse) -> (c: Self)
        ensures
            c.subcmd == opt,
    {
        Self { subcmd: opt }
    }
}

} // verus!

//! A library for recursive directory-tree file management: path predicates,
//! a depth-bounded filter pipeline, and four operations over the filtered
//! entry stream (walk listings, content tests, match reports, and safe
//! in-place text substitution with backups).
//!
//! The filesystem itself is read and written by the surrounding program;
//! the library works on a snapshot of the tree (entries, hidden-path marks,
//! and decoded file contents) and plans every output line and file write.

use vstd::prelude::*;

pub mod config;
pub mod contains;
pub mod errors;
pub mod find;
pub mod laws;
pub mod model;
pub mod paths;
pub mod pipeline;
pub mod replace;
pub mod rx;
pub mod walk;
pub mod text;

use crate::config::Config;
use crate::config::Recurse;
use crate::contains::spec_contains_lines;
use crate::contains::ContainsCommand;
use crate::errors::RecurseError;
use crate::find::spec_find_lines;
use crate::find::FindCommand;
use crate::model::updates_view;
use crate::model::FileUpdate;
use crate::model::RunPlan;
use crate::model::TreeSnapshot;
use crate::paths::spec_is_root;
use crate::replace::spec_replace_updates;
use crate::replace::spec_update_lines;
use crate::replace::update_lines;
use crate::replace::ReplaceCommand;
use crate::rx::regex_error_of;
use crate::rx::regex_valid;
use crate::text::views_of;
use crate::walk::spec_walk_lines;
use crate::walk::WalkCommand;

verus! {

/// Executes one run: dispatches the configured request to its operation
/// and returns the planned output lines, together with the file updates
/// the caller must perform for a substitution run.
pub fn run(config: Config, tree: &TreeSnapshot) -> (r: Result<RunPlan, RecurseError>)
    requires
        tree.wf(),
    ensures
        match config.subcmd {
            Recurse::Walk { extension, dir_only, hidden, inpath, mindepth, maxdepth, symlinks } => {
                if tree.root_exists {
                    match r {
                        Ok(plan) => views_of(plan.lines@) == spec_walk_lines(
                            tree.entries@,
                            tree.hidden@,
                            dir_only,
                            hidden,
                            extension,
                            mindepth,
                            maxdepth,
                        ) && plan.updates@ == Seq::<FileUpdate>::empty(),
                        _ => false,
                    }
                } else {
                    match r {
                        Err(RecurseError::MissingRoot(p)) => p@ == inpath@,
                        _ => false,
                    }
                }
            },
            Recurse::Contains { extension, hidden, mindepth, maxdepth, symlinks, find, inpath } => {
                if !tree.root_exists {
                    match r {
                        Err(RecurseError::MissingRoot(p)) => p@ == inpath@,
                        _ => false,
                    }
                } else if !regex_valid(find@) {
                    match r {
                        Err(RecurseError::Pattern(m)) => m@ == regex_error_of(find@),
                        _ => false,
                    }
                } else {
                    match r {
                        Ok(plan) => views_of(plan.lines@) == spec_contains_lines(
                            tree.entries@,
                            tree.hidden@,
                            tree.contents@,
                            hidden,
                            extension,
                            mindepth,
                            maxdepth,
                            find@,
                        ) && plan.updates@ == Seq::<FileUpdate>::empty(),
                        _ => false,
                    }
                }
            },
            Recurse::Find { extension, hidden, mindepth, maxdepth, symlinks, find, inpath } => {
                if !tree.root_exists {
                    match r {
                        Err(RecurseError::MissingRoot(p)) => p@ == inpath@,
                        _ => false,
                    }
                } else if !regex_valid(find@) {
                    match r {
                        Err(RecurseError::Pattern(m)) => m@ == regex_error_of(find@),
                        _ => false,
                    }
                } else {
                    match r {
                        Ok(plan) => views_of(plan.lines@) == spec_find_lines(
                            tree.entries@,
                            tree.hidden@,
                            tree.contents@,
                            hidden,
                            extension,
                            mindepth,
                            maxdepth,
                            find@,
                        ) && plan.updates@ == Seq::<FileUpdate>::empty(),
                        _ => false,
                    }
                }
            },
            Recurse::Replace {
                extension,
                hidden,
                nobu,
                mindepth,
                maxdepth,
                symlinks,
                find,
                replace,
                inpath,
            } => {
                if spec_is_root(inpath@) {
                    match r {
                        Err(RecurseError::RootSentinel(p)) => p@ == inpath@,
                        _ => false,
                    }
                } else if !tree.root_exists {
                    match r {
                        Err(RecurseError::MissingRoot(p)) => p@ == inpath@,
                        _ => false,
                    }
                } else if !regex_valid(find@) {
                    match r {
                        Err(RecurseError::Pattern(m)) => m@ == regex_error_of(find@),
                        _ => false,
                    }
                } else {
                    match r {
                        Ok(plan) => updates_view(plan.updates@) == spec_replace_updates(
                            tree.entries@,
                            tree.hidden@,
                            tree.contents@,
                            hidden,
                            extension,
                            mindepth,
                            maxdepth,
                            find@,
                            replace@,
                            nobu,
                        ) && views_of(plan.lines@) == spec_update_lines(plan.updates@),
                        _ => false,
                    }
                }
            },
        },
{
    let is_replace = match &config.subcmd {
        Recurse::Replace { .. } => true,
        _ => false,
    };
    if is_replace {
        let updates = ReplaceCommand::execute(config.subcmd, tree)?;
        let lines = update_lines(&updates);
        Ok(RunPlan { lines, updates })
    } else {
        let lines = match &config.subcmd {
            Recurse::Walk { .. } => WalkCommand::execute(config.subcmd, tree)?,
            Recurse::Contains { .. } => ContainsCommand::execute(config.subcmd, tree)?,
            _ => FindCommand::execute(config.subcmd, tree)?,
        };
        Ok(RunPlan { lines, updates: Vec::new() })
    }
}

} // verus!

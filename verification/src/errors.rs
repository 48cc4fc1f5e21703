//! The error taxonomy of a run: user-input errors that abort the run
//! before any file is touched, and I/O failures surfaced by the caller.

use vstd::prelude::*;
use vstd::string::*;

verus! {

/// An error that aborts a run.
pub enum RecurseError {
    /// The traversal root does not exist; carries the root path.
    MissingRoot(String),
    /// A request reached an operation it does not belong to; carries the
    /// operation's name.
    ParseFailure(String),
    /// The find pattern is not a valid regular expression; carries the
    /// pattern compiler's message verbatim.
    Pattern(String),
    /// A substitution run was asked to start at a filesystem root; carries
    /// the offending root path.
    RootSentinel(String),
    /// An I/O failure reported by the caller; carries the message verbatim.
    Io(String),
}

/// The one-line message of each error.
pub open spec fn spec_message(e: RecurseError) -> Seq<char> {
    match e {
        RecurseError::MissingRoot(p) => "no such file or directory '"@ + p@ + "'"@,
        RecurseError::ParseFailure(c) => "failure to parse "@ + c@ + " subcommand."@,
        RecurseError::Pattern(m) => m@,
        RecurseError::RootSentinel(p) => "recurse does not support replacements originating on the file path '"@
            + p@ + "'"@,
        RecurseError::Io(m) => m@,
    }
}

impl RecurseError {
    /// Renders the error as its one-line message.
    pub fn message(&self) -> (r: String)
        ensures
            r@ == spec_message(*self),
    {
        match self {
            RecurseError::MissingRoot(p) => {
                let mut s = String::from_str("no such file or directory '");
                s.append(p.as_str());
                s.append("'");
                s
            },
            RecurseError::ParseFailure(c) => {
                let mut s = String::from_str("failure to parse ");
                s.append(c.as_str());
                s.append(" subcommand.");
                s
            },
            RecurseError::Pattern(m) => m.clone(),
            RecurseError::RootSentinel(p) => {
                let mut s = String::from_str(
                    "recurse does not support replacements originating on the file path '",
                );
                s.append(p.as_str());
                s.append("'");
                s
            },
            RecurseError::Io(m) => m.clone(),
        }
    }
}

} // verus!

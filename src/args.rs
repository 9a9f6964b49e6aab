use vstd::prelude::*;

use crate::kind::{kind_named, InvalidKind, SearchKind};
use crate::text::text_eq;

verus! {

/// The settings a command line selects.
#[derive(Clone, Copy, Debug, PartialEq, Eq, Structural)]
pub struct Args {
    pub search_kind: SearchKind,
}

/// Why a command line ends the run before any scan.
#[derive(Debug)]
pub enum UsageError {
    /// `-h` or `--help` was given.
    Help,
    /// More than one positional argument was given.
    TooMany,
    /// The positional argument names no strategy.
    UnknownKind(InvalidKind),
}

/// Whether `arg` asks for the usage text.
pub open spec fn is_help(arg: Seq<char>) -> bool {
    arg == "--help"@ || arg == "-h"@
}

/// Whether some argument of `args` asks for the usage text.
pub open spec fn asks_help(args: Seq<String>) -> bool {
    exists|i: int| 0 <= i < args.len() && is_help(#[trigger] args[i]@)
}

impl Default for Args {
    fn default() -> (r: Args)
        ensures
            r.search_kind == SearchKind::Index,
    {
        Args { search_kind: SearchKind::Index }
    }
}

impl Args {
    /// Reads a command line; `args[0]` is the program's own name.
    pub fn from_list(args: &Vec<String>) -> (r: Result<Args, UsageError>)
        ensures
            asks_help(args@) ==> r matches Err(UsageError::Help),
            !asks_help(args@) && args@.len() > 2 ==> r matches Err(UsageError::TooMany),
            !asks_help(args@) && args@.len() == 2 ==> match kind_named(args@[1]@) {
                Some(k) => r == Ok::<Args, UsageError>(Args { search_kind: k }),
                None => r matches Err(UsageError::UnknownKind(e)) && e.name@ == args@[1]@,
            },
            !asks_help(args@) && args@.len() < 2 ==> r == Ok::<Args, UsageError>(
                Args { search_kind: SearchKind::Index },
            ),
    {
        let mut i: usize = 0;
        while i < args.len()
            invariant
                i <= args@.len(),
                forall|j: int| 0 <= j < i ==> !is_help(#[trigger] args@[j]@),
            decreases args@.len() - i,
        {
            if text_eq(args[i].as_str(), "--help") || text_eq(args[i].as_str(), "-h") {
                return Err(UsageError::Help);
            }
            i = i + 1;
        }
        if args.len() > 2 {
            Err(UsageError::TooMany)
        } else if args.len() == 2 {
            match SearchKind::parse(args[1].as_str()) {
                Ok(kind) => Ok(Args { search_kind: kind }),
                Err(e) => Err(UsageError::UnknownKind(e)),
            }
        } else {
            Ok(Args::default())
        }
    }
}

impl UsageError {
    /// The process exit code: 0 for help, 1 for too many arguments, 2 for an
    /// unknown strategy.
    pub fn exit_code(&self) -> (r: i32)
        ensures
            r == match self {
                UsageError::Help => 0i32,
                UsageError::TooMany => 1i32,
                UsageError::UnknownKind(_) => 2i32,
            },
    {
        match self {
            UsageError::Help => 0,
            UsageError::TooMany => 1,
            UsageError::UnknownKind(_) => 2,
        }
    }

    /// The message printed above the usage text; empty for help.
    pub fn message(&self) -> (r: String)
        ensures
            match self {
                UsageError::Help => r@.len() == 0,
                UsageError::TooMany => r@ == "Only one argument should be present"@,
                UsageError::UnknownKind(e) => r@ == "Unknown search kind "@ + e.name@,
            },
    {
        match self {
            UsageError::Help => String::new(),
            UsageError::TooMany => String::from_str("Only one argument should be present"),
            UsageError::UnknownKind(e) => e.message(),
        }
    }
}

} // verus!

use vstd::prelude::*;

use crate::text::text_eq;

verus! {

/// The strategy that decides whether a working directory has modifications.
#[derive(Clone, Copy, Debug, PartialEq, Eq, Structural)]
pub enum SearchKind {
    /// Differences between the index and the working directory.
    Index,
    /// The status of every tracked file.
    Status,
    /// Differences between the checked-out commit's tree and the working directory.
    Tree,
}

/// A strategy name that names none of the strategies.
#[derive(Debug)]
pub struct InvalidKind {
    pub name: String,
}

/// The strategy that the name `arg` selects, if any.
pub open spec fn kind_named(arg: Seq<char>) -> Option<SearchKind> {
    if arg == "i"@ || arg == "index"@ {
        Some(SearchKind::Index)
    } else if arg == "s"@ || arg == "status"@ {
        Some(SearchKind::Status)
    } else if arg == "t"@ || arg == "tree"@ {
        Some(SearchKind::Tree)
    } else {
        None
    }
}

impl SearchKind {
    /// Reads a strategy name: `i`/`index`, `s`/`status` or `t`/`tree`.
    pub fn parse(arg: &str) -> (r: Result<SearchKind, InvalidKind>)
        ensures
            match kind_named(arg@) {
                Some(k) => r == Ok::<SearchKind, InvalidKind>(k),
                None => r matches Err(e) && e.name@ == arg@,
            },
    {
        if text_eq(arg, "i") || text_eq(arg, "index") {
            Ok(SearchKind::Index)
        } else if text_eq(arg, "s") || text_eq(arg, "status") {
            Ok(SearchKind::Status)
        } else if text_eq(arg, "t") || text_eq(arg, "tree") {
            Ok(SearchKind::Tree)
        } else {
            Err(InvalidKind { name: arg.to_owned() })
        }
    }
}

impl Default for SearchKind {
    fn default() -> (r: SearchKind)
        ensures
            r == SearchKind::Index,
    {
        SearchKind::Index
    }
}

impl InvalidKind {
    /// The human-readable description: `Unknown search kind <name>`.
    pub fn message(&self) -> (r: String)
        ensures
            r@ == "Unknown search kind "@ + self.name@,
    {
        let mut s = String::from_str("Unknown search kind ");
        s.append(self.name.as_str());
        s
    }
}

} // verus!

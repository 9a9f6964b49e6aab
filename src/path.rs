use vstd::prelude::*;
use vstd::string::StrSliceExecFns;

use crate::text::text_eq;

verus! {

/// The name of the directory that holds a repository's metadata.
pub open spec fn marker_name() -> Seq<char> {
    ".git"@
}

/// Whether `p` begins with the current-directory prefix `./`.
pub open spec fn has_dot_prefix(p: Seq<char>) -> bool {
    p.len() >= 2 && p[0] == '.' && p[1] == '/'
}

/// How a marker's parent directory `p` is displayed: `.` for the root itself,
/// else the path relative to the root.
pub open spec fn display_of(p: Seq<char>) -> Seq<char> {
    if p.len() == 0 || p == "."@ {
        "."@
    } else if has_dot_prefix(p) {
        p.subrange(2, p.len() as int)
    } else {
        p
    }
}

/// Whether a walked entry whose final path component is `name` marks a
/// repository; a name that is not valid text marks none.
pub fn is_git(name: Option<&str>) -> (r: bool)
    ensures
        r == (name matches Some(n) && n@ == marker_name()),
{
    match name {
        Some(n) => text_eq(n, ".git"),
        None => false,
    }
}

/// The display form of a marker's parent directory path.
pub fn display_name(parent: &str) -> (r: String)
    ensures
        r@ == display_of(parent@),
{
    let n = parent.unicode_len();
    if n == 0 || text_eq(parent, ".") {
        String::from_str(".")
    } else if n >= 2 && parent.get_char(0) == '.' && parent.get_char(1) == '/' {
        parent.substring_char(2, n).to_owned()
    } else {
        parent.to_owned()
    }
}

/// The display form of a marker's parent directory, where its path is valid
/// text; `None` where the marker has no parent or the parent's path is not text.
pub fn format_dir_entry(parent: Option<&str>) -> (r: Option<String>)
    ensures
        match parent {
            Some(p) => r matches Some(s) && s@ == display_of(p@),
            None => r is None,
        },
{
    match parent {
        Some(p) => Some(display_name(p)),
        None => None,
    }
}

} // verus!

use vstd::prelude::*;

verus! {

/// The settings under which both diff-based strategies compare.
#[derive(Clone, Copy, Debug, PartialEq, Eq, Structural)]
pub struct DiffPolicy {
    pub ignore_submodules: bool,
    pub include_ignored: bool,
    pub include_typechange: bool,
}

/// The settings under which the status strategy lists files.
#[derive(Clone, Copy, Debug, PartialEq, Eq, Structural)]
pub struct StatusPolicy {
    pub include_ignored: bool,
    pub include_unreadable: bool,
    pub include_untracked: bool,
}

impl DiffPolicy {
    /// Submodule changes ignored; ignored files and type changes left out.
    pub fn standard() -> (r: DiffPolicy)
        ensures
            r.ignore_submodules,
            !r.include_ignored,
            !r.include_typechange,
    {
        DiffPolicy { ignore_submodules: true, include_ignored: false, include_typechange: false }
    }
}

impl StatusPolicy {
    /// Ignored, unreadable and untracked files left out.
    pub fn standard() -> (r: StatusPolicy)
        ensures
            !r.include_ignored,
            !r.include_unreadable,
            !r.include_untracked,
    {
        StatusPolicy { include_ignored: false, include_unreadable: false, include_untracked: false }
    }
}

} // verus!

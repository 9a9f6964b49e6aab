use vstd::prelude::*;

use crate::strategy::CheckError;

verus! {

/// What the driver does after checking one repository.
#[derive(Debug)]
pub enum Action {
    /// Print the directory's display name on standard output.
    Print(String),
    /// Log a warning: the check failed on the directory displayed as `place`.
    Warn { place: Option<String>, cause: String },
    /// Nothing to report.
    Nothing,
}

/// The output line that one check yields: the display name of a directory
/// found modified.
pub open spec fn line_of(outcome: Result<bool, CheckError>, name: Option<String>) -> Option<
    Seq<char>,
> {
    match (outcome, name) {
        (Ok(true), Some(n)) => Some(n@),
        _ => None,
    }
}

/// The lines printed after `found`, once a check yields `line`.
pub open spec fn after(found: Seq<Seq<char>>, line: Option<Seq<char>>) -> Seq<Seq<char>> {
    match line {
        Some(l) => found.push(l),
        None => found,
    }
}

/// The lines printed over a run of checks, each an outcome with its display name.
pub open spec fn lines_of(checks: Seq<(Result<bool, CheckError>, Option<String>)>) -> Seq<
    Seq<char>,
>
    decreases checks.len(),
{
    if checks.len() == 0 {
        Seq::empty()
    } else {
        after(lines_of(checks.drop_last()), line_of(checks.last().0, checks.last().1))
    }
}

/// How many checks of a run found a modified directory.
pub open spec fn modified_count(checks: Seq<(Result<bool, CheckError>, Option<String>)>) -> nat
    decreases checks.len(),
{
    if checks.len() == 0 {
        0
    } else {
        modified_count(checks.drop_last()) + if line_of(checks.last().0, checks.last().1) is Some {
            1nat
        } else {
            0nat
        }
    }
}

/// The exit code of a completed scan that found `found` modified directories.
pub open spec fn exit_code_for(found: nat) -> i32 {
    if found > 0 {
        100
    } else {
        0
    }
}

/// The state of a scan: how many modified directories it has reported.
pub struct Tally {
    count: usize,
    printed: Ghost<Seq<Seq<char>>>,
}

impl Tally {
    /// The lines reported so far, in order.
    pub closed spec fn printed(&self) -> Seq<Seq<char>> {
        self.printed@
    }

    /// The count agrees with the lines reported, saturating at the largest `usize`.
    pub closed spec fn wf(&self) -> bool {
        self.count as int == if self.printed@.len() < usize::MAX {
            self.printed@.len() as int
        } else {
            usize::MAX as int
        }
    }

    /// A scan that has reported nothing.
    pub fn new() -> (r: Tally)
        ensures
            r.wf(),
            r.printed() == Seq::<Seq<char>>::empty(),
    {
        Tally { count: 0, printed: Ghost(Seq::empty()) }
    }

    /// Takes the outcome of checking one repository whose directory displays as
    /// `name`, and says what to do: print a modified directory, warn of a
    /// failure, or nothing. A failed check counts as unmodified.
    pub fn observe(&mut self, outcome: Result<bool, CheckError>, name: Option<String>) -> (a: Action)
        requires
            old(self).wf(),
        ensures
            final(self).wf(),
            final(self).printed() == after(old(self).printed(), line_of(outcome, name)),
            match line_of(outcome, name) {
                Some(l) => a matches Action::Print(s) && s@ == l,
                None => match outcome {
                    Err(e) => a matches Action::Warn { place, cause } && cause@ == e.message@
                        && place == name,
                    Ok(_) => a is Nothing,
                },
            },
    {
        match outcome {
            Ok(true) => match name {
                Some(n) => {
                    proof {
                        self.printed@ = self.printed@.push(n@);
                    }
                    self.count = self.count.saturating_add(1);
                    Action::Print(n)
                },
                None => Action::Nothing,
            },
            Ok(false) => Action::Nothing,
            Err(e) => Action::Warn { place: name, cause: e.message },
        }
    }

    /// The exit code once the scan is complete: 100 where it reported a
    /// modified directory, else 0.
    pub fn exit_code(&self) -> (r: i32)
        requires
            self.wf(),
        ensures
            r == exit_code_for(self.printed().len()),
    {
        if self.count > 0 {
            100
        } else {
            0
        }
    }
}

/// A scan prints one line for each check that found a modified directory, in
/// order, and exits with 100 exactly where there is at least one such line.
pub proof fn lemma_lines_match_modified(checks: Seq<(Result<bool, CheckError>, Option<String>)>)
    ensures
        lines_of(checks).len() == modified_count(checks),
        exit_code_for(lines_of(checks).len()) == 100 <==> exists|i: int|
            0 <= i < checks.len() && line_of(checks[i].0, checks[i].1) is Some,
        exit_code_for(lines_of(checks).len()) == 0 <==> forall|i: int|
            0 <= i < checks.len() ==> line_of(checks[i].0, checks[i].1) is None,
    decreases checks.len(),
{
    if checks.len() > 0 {
        let init = checks.drop_last();
        lemma_lines_match_modified(init);
        assert forall|i: int| 0 <= i < init.len() implies init[i] == checks[i] by {}
        if line_of(checks.last().0, checks.last().1) is None {
            assert(forall|i: int|
                0 <= i < checks.len() && line_of(checks[i].0, checks[i].1) is Some ==> i
                    < init.len());
        }
    }
}

/// Checking one more repository extends a run's lines exactly as
/// `Tally::observe` extends the lines it has reported.
pub proof fn lemma_lines_step(
    checks: Seq<(Result<bool, CheckError>, Option<String>)>,
    outcome: Result<bool, CheckError>,
    name: Option<String>,
)
    ensures
        lines_of(checks.push((outcome, name))) == after(lines_of(checks), line_of(outcome, name)),
{
    assert(checks.push((outcome, name)).drop_last() =~= checks);
}

} // verus!

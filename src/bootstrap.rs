use vstd::prelude::*;

use crate::scope::{granted, AllowList, Reach};

verus! {

/// Where the application stands in its life.
#[derive(Debug, Clone, Copy, PartialEq, Eq, Structural)]
pub enum Phase {
    /// The setup hook runs; scope grants may be applied.
    Setup,
    /// The event loop runs and dispatches commands; the scope no longer changes.
    Running,
}

/// Why a scope grant was not applied.
#[derive(Debug, Clone, Copy, PartialEq, Eq, Structural)]
pub enum GrantError {
    /// The directory does not exist or the process cannot reach it.
    Inaccessible,
    /// Setup is over: the allow-list is read-only from then on.
    AfterSetup,
}

/// The application's startup state: its phase and its allow-list, which
/// starts empty so that every file access is denied until a grant is made.
pub struct Bootstrap {
    phase: Phase,
    scope: AllowList,
}

impl View for Bootstrap {
    type V = (Phase, Seq<(Seq<char>, Reach)>);

    closed spec fn view(&self) -> (Phase, Seq<(Seq<char>, Reach)>) {
        (self.phase, self.scope@)
    }
}

/// The state after a grant of directory `d` during setup, where `accessible`
/// tells whether the directory could be reached: the patterns of the grant are
/// added when it could, and nothing changes when it could not.
pub open spec fn grant_step(
    s: (Phase, Seq<(Seq<char>, Reach)>),
    d: Seq<char>,
    recursive: bool,
    accessible: bool,
) -> (Phase, Seq<(Seq<char>, Reach)>) {
    if s.0 == Phase::Setup && accessible {
        (s.0, s.1 + granted(d, recursive))
    } else {
        s
    }
}

/// The state once the setup hook has returned: the event loop runs, with the
/// allow-list as setup left it.
pub open spec fn setup_finished(s: (Phase, Seq<(Seq<char>, Reach)>)) -> (
    Phase,
    Seq<(Seq<char>, Reach)>,
) {
    (Phase::Running, s.1)
}

impl Bootstrap {
    /// The state before the setup hook runs: nothing is granted.
    pub fn new() -> (r: Bootstrap)
        ensures
            r@ == (Phase::Setup, Seq::<(Seq<char>, Reach)>::empty()),
    {
        Bootstrap { phase: Phase::Setup, scope: AllowList::new() }
    }

    /// The current phase.
    pub fn phase(&self) -> (r: Phase)
        ensures
            r == self@.0,
    {
        self.phase
    }

    /// The allow-list as it stands.
    pub fn scope(&self) -> (r: &AllowList)
        ensures
            r@ == self@.1,
    {
        &self.scope
    }

    /// Applies the grant of directory `path`, given whether the directory could
    /// be reached. A failed grant is reported to the caller, who may log it, and
    /// leaves the state as it was; it never stops the startup.
    pub fn apply_grant(&mut self, path: &str, recursive: bool, accessible: bool) -> (r: Result<
        (),
        GrantError,
    >)
        ensures
            final(self)@ == grant_step(old(self)@, path@, recursive, accessible),
            old(self)@.0 == Phase::Running ==> r == Err::<(), GrantError>(GrantError::AfterSetup),
            old(self)@.0 == Phase::Setup && !accessible ==> r == Err::<(), GrantError>(
                GrantError::Inaccessible,
            ),
            old(self)@.0 == Phase::Setup && accessible ==> r is Ok,
    {
        if let Phase::Running = self.phase {
            return Err(GrantError::AfterSetup);
        }
        if !accessible {
            return Err(GrantError::Inaccessible);
        }
        self.scope.allow_directory(path, recursive);
        Ok(())
    }

    /// Ends the setup hook: the event loop starts, whatever became of the grants.
    pub fn finish_setup(&mut self)
        ensures
            final(self)@ == setup_finished(old(self)@),
    {
        self.phase = Phase::Running;
    }
}

/// A grant that fails during setup leaves the allow-list as it was, and setup
/// still completes: the application reaches its running state.
pub proof fn lemma_failed_grant_still_runs(
    s: (Phase, Seq<(Seq<char>, Reach)>),
    d: Seq<char>,
    recursive: bool,
)
    requires
        s.0 == Phase::Setup,
    ensures
        grant_step(s, d, recursive, false) == s,
        setup_finished(grant_step(s, d, recursive, false)) == (Phase::Running, s.1),
{
}

} // verus!

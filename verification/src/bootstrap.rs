//! The bootstrap of the one window-hosted application instance.
//!
//! Bootstrap assembles the host, registers the state record and the command
//! surface, stores the running instance's handle in the process-wide slot,
//! decides from the environment-supplied launch URL whether the window is to
//! navigate away from its default content, and then starts the blocking event
//! loop. The host itself and the event loop are outside this crate; the
//! decisions, the handle slot's write-once discipline and the life-cycle
//! phases are here.

use vstd::prelude::*;

verus! {

/// Whether a string is a syntactically well-formed URL, as the `url` crate's
/// parser judges it. The judgement depends on the characters alone.
pub uninterp spec fn url_well_formed(s: Seq<char>) -> bool;

/// Relies on `url::Url::parse`: it returns `Ok` exactly for the well-formed
/// strings, and its judgement is a function of the input string alone.
#[verifier::external_body]
fn parse_url_ok(s: &str) -> (r: bool)
    ensures
        r == url_well_formed(s@),
{
    url::Url::parse(s).is_ok()
}

/// What bootstrap decides to do with the window's initial content.
pub enum NavigationPlan {
    /// No launch URL was supplied: the window keeps its default content.
    KeepDefault,
    /// A well-formed launch URL was supplied: navigate the window to it.
    Navigate(String),
    /// The supplied launch URL does not parse: report a configuration error
    /// and continue with the default content; the process must not abort.
    InvalidConfig(String),
}

/// Decide the launch navigation from the optional environment-supplied URL.
pub fn plan_navigation(env_url: Option<String>) -> (plan: NavigationPlan)
    ensures
        env_url is None ==> plan is KeepDefault,
        env_url matches Some(u) ==> ({
            &&& url_well_formed(u@) ==> (plan matches NavigationPlan::Navigate(t) && t@ == u@)
            &&& !url_well_formed(u@) ==> (plan matches NavigationPlan::InvalidConfig(t) && t@
                == u@)
        }),
{
    match env_url {
        Option::None => NavigationPlan::KeepDefault,
        Option::Some(u) => {
            if parse_url_ok(u.as_str()) {
                NavigationPlan::Navigate(u)
            } else {
                NavigationPlan::InvalidConfig(u)
            }
        },
    }
}

/// The process-wide slot that holds the running host instance's handle.
/// It is written exactly once, during setup: `install` demands an empty slot,
/// and no operation ever clears it.
pub struct HandleSlot<H> {
    handle: Option<H>,
}

impl<H> HandleSlot<H> {
    /// The handle the slot holds, if any.
    pub closed spec fn spec_handle(&self) -> Option<H> {
        self.handle
    }

    /// Whether setup has already stored the handle.
    pub open spec fn spec_installed(&self) -> bool {
        self.spec_handle() is Some
    }

    /// The slot as it exists before setup runs: empty.
    pub fn empty() -> (slot: Self)
        ensures
            !slot.spec_installed(),
    {
        HandleSlot { handle: Option::None }
    }

    /// Store the running instance's handle. Setup is the one writer, so the
    /// slot must still be empty.
    pub fn install(&mut self, handle: H)
        requires
            !old(self).spec_installed(),
        ensures
            final(self).spec_handle() == Some(handle),
    {
        self.handle = Option::Some(handle);
    }

    /// Whether the handle has been stored.
    pub fn is_installed(&self) -> (r: bool)
        ensures
            r == self.spec_installed(),
    {
        match self.handle {
            Option::Some(_) => true,
            Option::None => false,
        }
    }
}

/// The bootstrap life cycle: building the host, one-time setup, the running
/// event loop, and process exit. There are no retries and no way back.
pub enum BootPhase {
    Uninitialized,
    Building,
    Setup,
    Running,
    Exited,
}

/// How far along the life cycle a phase lies.
pub open spec fn phase_rank(p: BootPhase) -> int {
    match p {
        BootPhase::Uninitialized => 0,
        BootPhase::Building => 1,
        BootPhase::Setup => 2,
        BootPhase::Running => 3,
        BootPhase::Exited => 4,
    }
}

/// The phase that follows `p`: phases advance in a fixed order, and the
/// exited phase is terminal.
pub open spec fn spec_next_phase(p: BootPhase) -> BootPhase {
    match p {
        BootPhase::Uninitialized => BootPhase::Building,
        BootPhase::Building => BootPhase::Setup,
        BootPhase::Setup => BootPhase::Running,
        BootPhase::Running => BootPhase::Exited,
        BootPhase::Exited => BootPhase::Exited,
    }
}

/// Advance the bootstrap life cycle by one step.
pub fn next_phase(p: &BootPhase) -> (n: BootPhase)
    ensures
        n == spec_next_phase(*p),
{
    match p {
        BootPhase::Uninitialized => BootPhase::Building,
        BootPhase::Building => BootPhase::Setup,
        BootPhase::Setup => BootPhase::Running,
        BootPhase::Running => BootPhase::Exited,
        BootPhase::Exited => BootPhase::Exited,
    }
}

/// Law: the life cycle never regresses; each step keeps or raises the rank,
/// and only the terminal phase stands still.
pub proof fn lemma_phase_never_regresses(p: BootPhase)
    ensures
        phase_rank(spec_next_phase(p)) >= phase_rank(p),
        spec_next_phase(p) == p <==> p is Exited,
{
}

} // verus!

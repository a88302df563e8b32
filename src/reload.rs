//! The hand-off between the render loop and the one background compile:
//! a compiling flag, a rebuild-pending flag and the staged shaders.

use vstd::prelude::*;
use crate::compile::{CompileFailure, SpirvShader};

verus! {

/// What a background compile reports when it ends.
#[non_exhaustive]
#[derive(Debug)]
pub enum CompilerEvent {
    Complete(Vec<SpirvShader>),
    Failed(CompileFailure),
}

/// Where the hand-off stands.
#[derive(Debug, Clone, Copy, PartialEq, Eq, Structural)]
pub enum ReloadPhase {
    Idle,
    Compiling,
    RebuildPending,
}

/// The hot-reload state shared by the render loop and the compile task.
///
/// `staged` is written only by `finish_compile`, which needs `compiling`, and
/// drained only by `take_staged`, which needs `rebuild_pending` without
/// `compiling`.
#[derive(Debug)]
pub struct HotReload {
    pub compiling: bool,
    pub rebuild_pending: bool,
    pub staged: Vec<SpirvShader>,
}

/// The state as plain values: (compiling, rebuild pending, staged shaders).
pub type ReloadView = (bool, bool, Seq<SpirvShader>);

impl View for HotReload {
    type V = ReloadView;

    open spec fn view(&self) -> ReloadView {
        (self.compiling, self.rebuild_pending, self.staged@)
    }
}

/// Nothing compiling, nothing pending, nothing staged.
pub open spec fn idle_view() -> ReloadView {
    (false, false, Seq::empty())
}

/// The phase of a state.
pub open spec fn phase_of(v: ReloadView) -> ReloadPhase {
    if v.0 {
        ReloadPhase::Compiling
    } else if v.1 {
        ReloadPhase::RebuildPending
    } else {
        ReloadPhase::Idle
    }
}

/// Whether a reload request made while `compiling` has the given value
/// starts a compile: only when none runs.
pub open spec fn reload_starts(compiling: bool) -> bool {
    !compiling
}

/// The state after a reload request: compiling, whether or not the request
/// started the compile.
pub open spec fn requested(v: ReloadView) -> ReloadView {
    (true, v.1, v.2)
}

/// The state after the running compile reports: its shaders staged and a
/// rebuild pending on success, idle on failure.
pub open spec fn compile_done(v: ReloadView, e: CompilerEvent) -> ReloadView {
    match e {
        CompilerEvent::Complete(shaders) => (false, true, shaders@),
        CompilerEvent::Failed(_) => idle_view(),
    }
}

/// Whether the render loop's poll finds shaders to take.
pub open spec fn poll_takes(v: ReloadView) -> bool {
    !v.0 && v.1
}

/// The state after the render loop's poll.
pub open spec fn polled(v: ReloadView) -> ReloadView {
    if poll_takes(v) {
        idle_view()
    } else {
        v
    }
}

/// How many compiles `n` reload requests start, from a state whose
/// compiling flag is `compiling`, when no compile ends in between: after any
/// request the flag is set (see `requested`).
pub open spec fn compiles_started(compiling: bool, n: nat) -> nat
    decreases n,
{
    if n == 0 {
        0
    } else {
        (if reload_starts(compiling) { 1nat } else { 0nat }) + compiles_started(true, (n - 1) as nat)
    }
}

/// However many reload requests arrive while no compile ends, at most one
/// compile is started, and none at all when one is already running.
pub proof fn lemma_single_compile_in_flight(compiling: bool, n: nat)
    ensures
        forall|v: ReloadView| #[trigger] requested(v).0,
        compiles_started(compiling, n) <= 1,
        compiling ==> compiles_started(compiling, n) == 0,
    decreases n,
{
    if n > 0 {
        lemma_single_compile_in_flight(true, (n - 1) as nat);
    }
}

/// A failed compile hands nothing to the render loop: the poll that follows
/// takes no shaders and changes nothing, so the registered modules and the
/// pipelines stay the last good ones.
pub proof fn lemma_failed_compile_hands_over_nothing(v: ReloadView, e: CompileFailure)
    ensures
        ({
            let after = compile_done(v, CompilerEvent::Failed(e));
            &&& after == idle_view()
            &&& !poll_takes(after)
            &&& polled(after) == after
        }),
{
}

impl HotReload {
    /// The state at start-up.
    pub fn new() -> (r: HotReload)
        ensures
            r@ == idle_view(),
    {
        HotReload { compiling: false, rebuild_pending: false, staged: Vec::new() }
    }

    /// The phase the hand-off is in.
    pub fn phase(&self) -> (r: ReloadPhase)
        ensures
            r == phase_of(self@),
    {
        if self.compiling {
            ReloadPhase::Compiling
        } else if self.rebuild_pending {
            ReloadPhase::RebuildPending
        } else {
            ReloadPhase::Idle
        }
    }

    /// A reload request: starts a compile unless one is running; a request
    /// while compiling is dropped, neither queued nor an error. Returns
    /// whether the caller is to launch the compile.
    pub fn request_reload(&mut self) -> (started: bool)
        ensures
            started == reload_starts(old(self).compiling),
            final(self)@ == requested(old(self)@),
    {
        if self.compiling {
            false
        } else {
            self.compiling = true;
            true
        }
    }

    /// The end of the running compile. On success its shaders are staged and
    /// a rebuild is pending; on failure the hand-off goes back to idle and
    /// nothing is staged, so the shaders and pipelines in use stay as they are.
    pub fn finish_compile(&mut self, event: CompilerEvent)
        requires
            old(self).compiling,
        ensures
            final(self)@ == compile_done(old(self)@, event),
    {
        match event {
            CompilerEvent::Complete(shaders) => {
                self.staged = shaders;
                self.rebuild_pending = true;
            },
            CompilerEvent::Failed(_) => {
                self.staged = Vec::new();
                self.rebuild_pending = false;
            },
        }
        self.compiling = false;
    }

    /// The render loop's poll: when a rebuild is pending and no compile
    /// runs, hands over the staged shaders and goes back to idle; otherwise
    /// hands over nothing and changes nothing.
    pub fn take_staged(&mut self) -> (r: Option<Vec<SpirvShader>>)
        ensures
            final(self)@ == polled(old(self)@),
            poll_takes(old(self)@) ==> (r matches Some(v) && v@ == old(self).staged@),
            !poll_takes(old(self)@) ==> r is None,
    {
        if !self.compiling && self.rebuild_pending {
            let mut staged: Vec<SpirvShader> = Vec::new();
            std::mem::swap(&mut staged, &mut self.staged);
            self.rebuild_pending = false;
            Some(staged)
        } else {
            None
        }
    }
}

} // verus!

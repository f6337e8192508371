use vstd::prelude::*;

use crate::port::{discovered_port, port_from_first_line, DEFAULT_BACKEND_PORT};
use crate::registry::{BackendPort, SidecarProcess};

verus! {

/// Where the worker's lifecycle stands.
#[derive(Debug, Clone, Copy, PartialEq, Eq, Structural)]
pub enum Phase {
    Idle,
    Spawning,
    Running,
    FallbackAssumed,
    Terminated,
}

/// The supervisor as a value: its phase and the handle it owns.
pub struct SupervisorState<H> {
    pub phase: Phase,
    pub handle: Option<H>,
}

/// A handle is held exactly while the worker runs.
pub open spec fn state_wf<H>(s: SupervisorState<H>) -> bool {
    (s.phase == Phase::Running) == s.handle.is_some()
}

/// The state after a successful spawn of `child`.
pub open spec fn after_spawn<H>(child: H) -> SupervisorState<H> {
    SupervisorState { phase: Phase::Running, handle: Some(child) }
}

/// The state after a failed spawn.
pub open spec fn after_spawn_failure<H>() -> SupervisorState<H> {
    SupervisorState { phase: Phase::FallbackAssumed, handle: None }
}

/// The state after the shutdown signal, and the handle to terminate, if any.
pub open spec fn after_shutdown<H>(s: SupervisorState<H>) -> (SupervisorState<H>, Option<H>) {
    (SupervisorState { phase: Phase::Terminated, handle: None }, s.handle)
}

/// Starts, tracks and stops the worker process. It owns the slot of the
/// process handle; the port cell is shared with the readers and handed in.
pub struct SidecarSupervisor<H> {
    phase: Phase,
    process: SidecarProcess<H>,
}

impl<H> View for SidecarSupervisor<H> {
    type V = SupervisorState<H>;

    closed spec fn view(&self) -> SupervisorState<H> {
        SupervisorState { phase: self.phase, handle: self.process@ }
    }
}

impl<H> SidecarSupervisor<H> {
    /// A supervisor that has not started anything.
    pub fn new() -> (r: SidecarSupervisor<H>)
        ensures
            r@.phase == Phase::Idle,
            r@.handle == None::<H>,
            state_wf(r@),
    {
        SidecarSupervisor { phase: Phase::Idle, process: SidecarProcess::new() }
    }

    /// The current phase.
    pub fn phase(&self) -> (r: Phase)
        ensures
            r == self@.phase,
    {
        self.phase
    }

    /// Whether a live handle is held.
    pub fn holds_process(&self) -> (r: bool)
        ensures
            r == self@.handle.is_some(),
    {
        self.process.is_occupied()
    }

    /// Enters `Spawning` from `Idle`; the spawn happens once, so from any other
    /// phase nothing changes and the result is `false`.
    pub fn begin_spawn(&mut self) -> (r: bool)
        ensures
            r == (old(self)@.phase == Phase::Idle),
            r ==> final(self)@ == (SupervisorState { phase: Phase::Spawning, handle: old(self)@.handle }),
            !r ==> final(self)@ == old(self)@,
    {
        if self.phase == Phase::Idle {
            self.phase = Phase::Spawning;
            true
        } else {
            false
        }
    }

    /// The worker started as `child` and wrote `first_line` first: the handle is
    /// kept, and the port it announces (or the default port) is published.
    pub fn spawn_succeeded(&mut self, port: &mut BackendPort, child: H, first_line: &[u8])
        requires
            old(self)@.phase == Phase::Spawning,
            state_wf(old(self)@),
        ensures
            final(self)@ == after_spawn(child),
            state_wf(final(self)@),
            final(port)@ == Some(discovered_port(first_line@)),
    {
        let p = port_from_first_line(first_line);
        port.set(p);
        let prev = self.process.store(child);
        proof {
            assert(prev is None);
        }
        self.phase = Phase::Running;
    }

    /// The worker could not be started: a worker reachable out of band is
    /// assumed, the default port is published and no handle is held.
    pub fn spawn_failed(&mut self, port: &mut BackendPort)
        requires
            old(self)@.phase == Phase::Spawning,
            state_wf(old(self)@),
        ensures
            final(self)@ == after_spawn_failure::<H>(),
            state_wf(final(self)@),
            final(port)@ == Some(DEFAULT_BACKEND_PORT),
    {
        port.set(DEFAULT_BACKEND_PORT);
        self.phase = Phase::FallbackAssumed;
    }

    /// The shutdown signal: moves the handle out, if one is held, for the
    /// caller to terminate. The slot stays empty afterwards, so a second signal
    /// hands nothing out.
    pub fn shutdown(&mut self) -> (r: Option<H>)
        ensures
            (final(self)@, r) == after_shutdown(old(self)@),
            state_wf(final(self)@),
    {
        let child = self.process.take();
        self.phase = Phase::Terminated;
        child
    }
}

/// A failed spawn leaves no handle held, so the later shutdown signal hands
/// nothing out to terminate.
pub proof fn lemma_fallback_shutdown_is_noop<H>(s: SupervisorState<H>)
    requires
        s.phase == Phase::Spawning,
        state_wf(s),
    ensures
        after_spawn_failure::<H>().handle == None::<H>,
        after_spawn_failure::<H>().phase == Phase::FallbackAssumed,
        state_wf(after_spawn_failure::<H>()),
        after_shutdown(after_spawn_failure::<H>()).1 == None::<H>,
{
}

/// After a successful spawn exactly one handle, the spawned one, is held; the
/// first shutdown hands that handle out and empties the slot, and a second
/// shutdown hands nothing out and changes nothing, so no worker is killed twice.
pub proof fn lemma_single_termination<H>(s: SupervisorState<H>, child: H)
    requires
        s.phase == Phase::Spawning,
        state_wf(s),
    ensures
        after_spawn(child).handle == Some(child),
        after_shutdown(after_spawn(child)).1 == Some(child),
        after_shutdown(after_spawn(child)).0.handle == None::<H>,
        after_shutdown(after_shutdown(after_spawn(child)).0).1 == None::<H>,
        after_shutdown(after_shutdown(after_spawn(child)).0).0 == after_shutdown(
            after_spawn(child),
        ).0,
{
}

} // verus!

use vstd::prelude::*;

verus! {

/// The error of reading a port that has never been published.
#[derive(Debug, Clone, Copy, PartialEq, Eq, Structural)]
pub struct NotSetError;

/// What a read of the port cell yields when the cell holds `v`.
pub open spec fn port_lookup(v: Option<u16>) -> Result<u16, NotSetError> {
    match v {
        Some(p) => Ok(p),
        None => Err(NotSetError),
    }
}

/// The cell that holds the backend's published network port, once known.
pub struct BackendPort {
    port: Option<u16>,
}

impl View for BackendPort {
    type V = Option<u16>;

    closed spec fn view(&self) -> Option<u16> {
        self.port
    }
}

impl BackendPort {
    /// An empty cell: no port published yet.
    pub fn new() -> (r: BackendPort)
        ensures
            r@ == None::<u16>,
    {
        BackendPort { port: None }
    }

    /// Publishes `port`, replacing whatever the cell held.
    pub fn set(&mut self, port: u16)
        ensures
            final(self)@ == Some(port),
    {
        self.port = Some(port);
    }

    /// The published port, or `NotSetError` when none was ever published.
    pub fn get(&self) -> (r: Result<u16, NotSetError>)
        ensures
            r == port_lookup(self@),
    {
        match self.port {
            Some(p) => Ok(p),
            None => Err(NotSetError),
        }
    }

    /// Whether a port has been published.
    pub fn is_set(&self) -> (r: bool)
        ensures
            r == self@.is_some(),
    {
        self.port.is_some()
    }
}

/// A read of a cell that was never written fails with `NotSetError`; reads do
/// not change the cell, so every read in such a run fails the same way.
pub proof fn lemma_unset_port_read_fails(cell: BackendPort)
    requires
        cell@ == None::<u16>,
    ensures
        port_lookup(cell@) == Err::<u16, NotSetError>(NotSetError),
{
}

/// After `set(port)` a read returns exactly `port`; reads take the cell by
/// shared reference, so every later read returns it again.
pub proof fn lemma_read_after_set(cell: BackendPort, port: u16)
    requires
        cell@ == Some(port),
    ensures
        port_lookup(cell@) == Ok::<u16, NotSetError>(port),
{
}

/// The slot that exclusively owns the live worker process handle, if any.
pub struct SidecarProcess<H> {
    child: Option<H>,
}

impl<H> View for SidecarProcess<H> {
    type V = Option<H>;

    closed spec fn view(&self) -> Option<H> {
        self.child
    }
}

impl<H> SidecarProcess<H> {
    /// An empty slot.
    pub fn new() -> (r: SidecarProcess<H>)
        ensures
            r@ == None::<H>,
    {
        SidecarProcess { child: None }
    }

    /// Puts `child` in the slot and hands back what it held before, so that
    /// no handle is ever silently dropped.
    pub fn store(&mut self, child: H) -> (r: Option<H>)
        ensures
            final(self)@ == Some(child),
            r == old(self)@,
    {
        let prev = self.child.take();
        self.child = Some(child);
        prev
    }

    /// Moves the handle out, leaving the slot empty for good.
    pub fn take(&mut self) -> (r: Option<H>)
        ensures
            final(self)@ == None::<H>,
            r == old(self)@,
    {
        self.child.take()
    }

    /// Whether a handle is held.
    pub fn is_occupied(&self) -> (r: bool)
        ensures
            r == self@.is_some(),
    {
        self.child.is_some()
    }
}

} // verus!

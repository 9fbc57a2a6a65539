//! The slot that tracks the managed process identifier.
//!
//! At most one managed process is live at a time. Its identifier lives in a
//! single slot: a show stores the identifier of the process it spawned
//! (overwriting any stale value), a hide takes the identifier out, leaving
//! the slot empty whether or not the termination that follows succeeds. The
//! surrounding binary guards the slot with its own lock and performs the
//! actual spawn and kill.

use vstd::prelude::*;

verus! {

/// The single slot holding the identifier of the live managed process, if
/// one is recorded.
pub struct PidSlot {
    /// The recorded process identifier, absent when nothing is considered
    /// live.
    pub pid: Option<u32>,
}

/// The slot as it exists at process start: empty.
pub fn waybar_pid() -> (s: PidSlot)
    ensures
        s.pid is None,
{
    PidSlot { pid: None }
}

impl PidSlot {
    /// Record the identifier of a freshly spawned process, discarding any
    /// stale value.
    pub fn record(&mut self, pid: u32)
        ensures
            final(self).pid == Some(pid),
    {
        self.pid = Some(pid);
    }

    /// Take the recorded identifier out, leaving the slot empty: the caller
    /// issues the termination request for whatever was taken.
    pub fn take(&mut self) -> (r: Option<u32>)
        ensures
            r == old(self).pid,
            final(self).pid is None,
    {
        let r = self.pid;
        self.pid = None;
        r
    }
}

} // verus!

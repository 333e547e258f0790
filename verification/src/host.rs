//! The simulation entities a syscall handler works against: the host that
//! owns the deterministic random source, the guest process whose memory is
//! accessed, and the per-call context handed to a handler.

use vstd::prelude::*;

use crate::memory::ProcessMemory;
use crate::random::RandomSource;

verus! {

/// A simulation host. It owns the one random source all of its guest
/// processes share; the source lives as long as the host and is never
/// reseeded mid-run.
pub struct Host {
    pub random: RandomSource,
}

impl Host {
    /// A host whose random source starts at the given simulation seed.
    pub fn new(seed: u64) -> (h: Host)
        ensures
            h.random.seed() == seed,
            h.random.cursor() == 0,
    {
        Host { random: RandomSource::new(seed) }
    }

    /// Exclusive access to the host's random source; holding it serializes
    /// all randomness drawn under this host.
    pub fn random_mut(&mut self) -> (r: &mut RandomSource)
        ensures
            *r == old(self).random,
            final(self).random == *final(r),
    {
        &mut self.random
    }
}

/// One emulated guest process: for this core, its memory.
pub struct Process {
    pub memory: ProcessMemory,
}

impl Process {
    pub fn new(memory: ProcessMemory) -> (p: Process)
        ensures
            p.memory == memory,
    {
        Process { memory }
    }

    /// Exclusive access to the process's memory for the duration of one
    /// call; all guest-memory effects go through views acquired from it.
    pub fn memory_borrow_mut(&mut self) -> (m: &mut ProcessMemory)
        ensures
            *m == old(self).memory,
            final(self).memory == *final(m),
    {
        &mut self.memory
    }
}

/// The per-call context a handler receives: the invoking host and the
/// calling process, held for the duration of the call only.
pub struct SyscallContext {
    pub host: Host,
    pub process: Process,
}

impl SyscallContext {
    pub fn new(host: Host, process: Process) -> (c: SyscallContext)
        ensures
            c.host == host,
            c.process == process,
    {
        SyscallContext { host, process }
    }
}

} // verus!

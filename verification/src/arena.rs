//! Lifecycle ledger of the fixed-capacity arena that backs all dynamic
//! allocation of the process.
//!
//! The arena is a single statically reserved byte region. It must be
//! initialized exactly once, before the first allocation; it never grows and
//! is never torn down. This module tracks that lifecycle and the live
//! allocation footprint, so that double initialization, use before
//! initialization and exhaustion are each rejected explicitly instead of
//! corrupting memory silently.

use vstd::prelude::*;

verus! {

/// A fatal arena fault. On the target hardware every one of these is a
/// programming or sizing defect with no recovery path.
#[derive(Clone, Copy, Debug, PartialEq, Eq, Structural)]
pub enum ArenaError {
    /// `initialize` was called a second time.
    AlreadyInitialized,
    /// An allocation was requested before `initialize`.
    NotInitialized,
    /// The live allocation footprint would exceed the arena's capacity.
    Exhausted,
}

/// Ledger of the process-wide arena: whether it has been initialized, where
/// its backing region starts, how many bytes it holds, and how many of them
/// are live (allocated and not yet freed) right now.
pub struct Arena {
    pub initialized: bool,
    pub base_address: usize,
    pub capacity_bytes: usize,
    pub live_bytes: usize,
}

impl Arena {
    /// The ledger is consistent: the live footprint never exceeds the
    /// capacity, and before initialization everything is zero.
    pub open spec fn wf(self) -> bool {
        &&& self.live_bytes <= self.capacity_bytes
        &&& !self.initialized ==> {
            &&& self.base_address == 0
            &&& self.capacity_bytes == 0
            &&& self.live_bytes == 0
        }
    }

    /// Whether `initialize` has run.
    pub open spec fn is_initialized(self) -> bool {
        self.initialized
    }

    /// Start address of the backing region.
    pub open spec fn base(self) -> usize {
        self.base_address
    }

    /// Total size of the backing region in bytes.
    pub open spec fn capacity(self) -> usize {
        self.capacity_bytes
    }

    /// Bytes currently allocated and not yet freed.
    pub open spec fn live(self) -> usize {
        self.live_bytes
    }

    /// Whether a request for `request_bytes` more bytes would exceed the
    /// capacity: the exhaustion condition, a function of the ledger state
    /// and the request alone.
    pub open spec fn would_exhaust(self, request_bytes: usize) -> bool {
        self.live_bytes + request_bytes > self.capacity_bytes
    }

    /// A fresh, uninitialized arena ledger.
    pub fn new() -> (arena: Arena)
        ensures
            arena.wf(),
            !arena.is_initialized(),
    {
        Arena { initialized: false, base_address: 0, capacity_bytes: 0, live_bytes: 0 }
    }

    /// Binds the ledger to the backing region exactly once. A second call is
    /// rejected with `AlreadyInitialized` and leaves the ledger untouched:
    /// reinitializing while allocations may be live would corrupt them.
    pub fn initialize(&mut self, base_address: usize, size_bytes: usize) -> (result: Result<
        (),
        ArenaError,
    >)
        requires
            old(self).wf(),
        ensures
            final(self).wf(),
            old(self).is_initialized() ==> {
                &&& result == Result::<(), ArenaError>::Err(ArenaError::AlreadyInitialized)
                &&& *final(self) == *old(self)
            },
            !old(self).is_initialized() ==> {
                &&& result == Result::<(), ArenaError>::Ok(())
                &&& final(self).is_initialized()
                &&& final(self).base() == base_address
                &&& final(self).capacity() == size_bytes
                &&& final(self).live() == 0
            },
    {
        if self.initialized {
            Err(ArenaError::AlreadyInitialized)
        } else {
            self.initialized = true;
            self.base_address = base_address;
            self.capacity_bytes = size_bytes;
            self.live_bytes = 0;
            Ok(())
        }
    }

    /// Records an allocation of `request_bytes` bytes. Fails with
    /// `NotInitialized` before `initialize`, and with `Exhausted` exactly
    /// when the request would push the live footprint over the capacity;
    /// a failed call leaves the ledger untouched.
    pub fn allocate(&mut self, request_bytes: usize) -> (result: Result<(), ArenaError>)
        requires
            old(self).wf(),
        ensures
            final(self).wf(),
            !old(self).is_initialized() ==> {
                &&& result == Result::<(), ArenaError>::Err(ArenaError::NotInitialized)
                &&& *final(self) == *old(self)
            },
            old(self).is_initialized() && old(self).would_exhaust(request_bytes) ==> {
                &&& result == Result::<(), ArenaError>::Err(ArenaError::Exhausted)
                &&& *final(self) == *old(self)
            },
            old(self).is_initialized() && !old(self).would_exhaust(request_bytes) ==> {
                &&& result == Result::<(), ArenaError>::Ok(())
                &&& final(self).live() == old(self).live() + request_bytes
            },
            final(self).is_initialized() == old(self).is_initialized(),
            final(self).base() == old(self).base(),
            final(self).capacity() == old(self).capacity(),
    {
        if !self.initialized {
            Err(ArenaError::NotInitialized)
        } else if request_bytes > self.capacity_bytes - self.live_bytes {
            Err(ArenaError::Exhausted)
        } else {
            self.live_bytes = self.live_bytes + request_bytes;
            Ok(())
        }
    }

    /// Records that `freed_bytes` previously allocated bytes were returned
    /// to the arena. Freed memory may be reused by later allocations; the
    /// region itself never shrinks.
    pub fn deallocate(&mut self, freed_bytes: usize)
        requires
            old(self).wf(),
            old(self).is_initialized(),
            freed_bytes <= old(self).live(),
        ensures
            final(self).wf(),
            final(self).is_initialized(),
            final(self).live() == old(self).live() - freed_bytes,
            final(self).base() == old(self).base(),
            final(self).capacity() == old(self).capacity(),
    {
        self.live_bytes = self.live_bytes - freed_bytes;
    }
}

/// Sizing law: an arena whose capacity falls short of a kernel's peak live
/// footprint `peak_bytes` fails deterministically. Whenever the live
/// footprint is about to reach `peak_bytes`, the request at hand meets the
/// exhaustion condition, so `allocate` returns `Exhausted` on every such
/// run, never intermittently succeeds.
pub proof fn lemma_undersized_arena_exhausts(
    arena: Arena,
    request_bytes: usize,
    peak_bytes: int,
)
    requires
        arena.wf(),
        arena.is_initialized(),
        arena.capacity() < peak_bytes,
        arena.live() + request_bytes >= peak_bytes,
    ensures
        arena.would_exhaust(request_bytes),
{
}

} // verus!

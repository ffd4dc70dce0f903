//! The raw lock: a non-reentrant, non-fair mutual-exclusion primitive.
use vstd::prelude::*;

use crate::fault::Fault;

verus! {

/// The bit pattern that the native runtime reads as "initialize on first use".
pub const PTHREAD_MUTEX_INITIALIZER: u32 = 0xFFFF_FFFF;

/// Where the native handle stands in its life.
#[derive(Clone, Copy, Debug, PartialEq, Eq, Structural)]
pub enum Phase {
    /// Holds the lazy-initialization sentinel; no native call has touched it yet.
    Sentinel,
    /// Initialized by the native runtime and not destroyed.
    Ready,
    /// Destroyed; no further operation is allowed.
    Destroyed,
}

/// Result of a lock request that respects the discipline.
#[derive(Clone, Copy, Debug, PartialEq, Eq, Structural)]
pub enum Acquire {
    /// The caller now holds the lock.
    Acquired,
    /// Another thread holds the lock: the caller stays suspended and asks again
    /// once the lock is released.
    Contended,
}

/// A raw lock. `holder` is the thread inside the critical section, if any.
pub struct RawMutex {
    pub phase: Phase,
    pub holder: Option<u64>,
}

impl RawMutex {
    pub open spec fn phase(&self) -> Phase {
        self.phase
    }

    pub open spec fn holder(&self) -> Option<u64> {
        self.holder
    }

    pub open spec fn wf(&self) -> bool {
        self.phase != Phase::Ready ==> self.holder is None
    }

    /// A new lock: the sentinel handle, unlocked. No native code runs.
    pub fn new() -> (r: Self)
        ensures
            r.phase() == Phase::Sentinel,
            r.holder() is None,
            r.wf(),
    {
        RawMutex { phase: Phase::Sentinel, holder: None }
    }

    /// Whether some thread is inside the critical section.
    pub fn is_locked(&self) -> (r: bool)
        ensures
            r == self.holder() is Some,
    {
        self.holder.is_some()
    }

    /// The native lock call returned to `thread`, or would suspend it.
    ///
    /// A free lock passes to `thread` (a sentinel handle becomes initialized on
    /// this first use). A lock held by another thread leaves `thread` suspended:
    /// the state does not change. A lock already held by `thread` is a
    /// reentrant acquisition, which is a fault, as is any use after destruction.
    pub fn lock(&mut self, thread: u64) -> (r: Result<Acquire, Fault>)
        requires
            old(self).wf(),
        ensures
            (*final(self), r) == lock_step(*old(self), thread),
            final(self).wf(),
    {
        if self.phase == Phase::Destroyed {
            Err(Fault::Destroyed)
        } else if self.holder == Some(thread) {
            Err(Fault::Reentrant)
        } else if self.holder.is_some() {
            Ok(Acquire::Contended)
        } else {
            self.phase = Phase::Ready;
            self.holder = Some(thread);
            Ok(Acquire::Acquired)
        }
    }

    /// Release by `thread`, which must be the holder.
    pub fn unlock(&mut self, thread: u64) -> (r: Result<(), Fault>)
        requires
            old(self).wf(),
        ensures
            (*final(self), r) == unlock_step(*old(self), thread),
            final(self).wf(),
    {
        if self.phase == Phase::Destroyed {
            Err(Fault::Destroyed)
        } else if self.holder != Some(thread) {
            Err(Fault::NotOwner)
        } else {
            self.holder = None;
            Ok(())
        }
    }

    /// Releases the native resources: at most once, and only while unlocked.
    pub fn destroy(&mut self) -> (r: Result<(), Fault>)
        requires
            old(self).wf(),
        ensures
            (*final(self), r) == destroy_step(*old(self)),
            final(self).wf(),
    {
        if self.phase == Phase::Destroyed {
            Err(Fault::Destroyed)
        } else if self.holder.is_some() {
            Err(Fault::Held)
        } else {
            self.phase = Phase::Destroyed;
            Ok(())
        }
    }
}

/// What a lock request by `thread` yields on `m`, and the lock afterwards.
pub open spec fn lock_step(m: RawMutex, thread: u64) -> (RawMutex, Result<Acquire, Fault>) {
    if m.phase == Phase::Destroyed {
        (m, Err(Fault::Destroyed))
    } else if m.holder == Some(thread) {
        (m, Err(Fault::Reentrant))
    } else if m.holder is Some {
        (m, Ok(Acquire::Contended))
    } else {
        (RawMutex { phase: Phase::Ready, holder: Some(thread) }, Ok(Acquire::Acquired))
    }
}

/// What a release by `thread` yields on `m`, and the lock afterwards.
pub open spec fn unlock_step(m: RawMutex, thread: u64) -> (RawMutex, Result<(), Fault>) {
    if m.phase == Phase::Destroyed {
        (m, Err(Fault::Destroyed))
    } else if m.holder != Some(thread) {
        (m, Err(Fault::NotOwner))
    } else {
        (RawMutex { phase: m.phase, holder: None }, Ok(()))
    }
}

/// What destruction yields on `m`, and the lock afterwards.
pub open spec fn destroy_step(m: RawMutex) -> (RawMutex, Result<(), Fault>) {
    if m.phase == Phase::Destroyed {
        (m, Err(Fault::Destroyed))
    } else if m.holder is Some {
        (m, Err(Fault::Held))
    } else {
        (RawMutex { phase: Phase::Destroyed, holder: None }, Ok(()))
    }
}

} // verus!

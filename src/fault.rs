//! The one failure class of the adapters: a broken usage invariant or a native
//! status that correct usage never produces.
use vstd::prelude::*;

verus! {

/// Status that every native mutex / condition-variable entry point returns on success.
pub const STATUS_OK: i32 = 0;

/// A violated invariant. These are programming errors of the caller, kept apart
/// from the ordinary outcomes of the primitives (such as a timed wait running out).
#[derive(Clone, Copy, Debug, PartialEq, Eq, Structural)]
pub enum Fault {
    /// A native call returned a status other than the ones correct usage yields.
    Native(i32),
    /// `lock` by the thread that already holds the lock.
    Reentrant,
    /// `unlock`, or a wait, by a thread that does not hold the lock.
    NotOwner,
    /// The primitive was already destroyed.
    Destroyed,
    /// Destruction of a lock that is still held.
    Held,
    /// Destruction of a condition variable that threads are still waiting on.
    Occupied,
    /// A wait by a thread that is already inside a wait on this condition variable.
    AlreadyWaiting,
    /// A wake-up event for a thread that is not inside a wait on this condition variable.
    NotWaiting,
}

/// Reads the status of a native call that succeeds under correct usage.
pub fn check_status(status: i32) -> (r: Result<(), Fault>)
    ensures
        status == STATUS_OK <==> r is Ok,
        status != STATUS_OK ==> r == Err::<(), Fault>(Fault::Native(status)),
{
    if status == STATUS_OK {
        Ok(())
    } else {
        Err(Fault::Native(status))
    }
}

} // verus!

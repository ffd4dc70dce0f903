//! Raw mutex and condition-variable adapters over a native pthread-style
//! backend.
//!
//! The native calls themselves (`pthread_mutex_lock`, `pthread_cond_timedwait`,
//! ...) are made by the embedding program. This library holds everything those
//! calls are surrounded by: the life cycle of each primitive, the usage
//! discipline (non-reentrant locking, waiting only while holding the lock, no
//! destruction while held or waited on), the reading of native status codes and
//! the absolute deadline of a timed wait.
use vstd::prelude::*;

pub mod fault;
pub mod laws;
pub mod condvar;
pub mod mutex;
pub mod timeout;

verus! {

} // verus!

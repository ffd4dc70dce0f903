//! Properties that hold across several operations of the primitives.
use vstd::prelude::*;

use crate::condvar::{
    destroy_cv_step, expire_step, notify_all_step, notify_one_step, reacquire_step, wait_step,
    CondvarView,
};
use crate::fault::Fault;
use crate::mutex::{destroy_step, lock_step, unlock_step, Acquire, Phase, RawMutex};
use crate::timeout::{deadline_nanos, TimeVal};

verus! {

/// One request that a thread makes of a raw lock.
pub enum MutexEvent {
    Lock(u64),
    Unlock(u64),
}

/// The lock after `events`, applied in order from `m`.
pub open spec fn run(m: RawMutex, events: Seq<MutexEvent>) -> RawMutex
    decreases events.len(),
{
    if events.len() == 0 {
        m
    } else {
        let prev = run(m, events.drop_last());
        match events.last() {
            MutexEvent::Lock(t) => lock_step(prev, t).0,
            MutexEvent::Unlock(t) => unlock_step(prev, t).0,
        }
    }
}

/// The threads inside the critical section after `events`: those whose lock
/// request was answered `Acquired` and that have not released the lock since.
pub open spec fn in_critical_section(m: RawMutex, events: Seq<MutexEvent>) -> Set<u64>
    decreases events.len(),
{
    if events.len() == 0 {
        Set::empty()
    } else {
        let prev = run(m, events.drop_last());
        let inside = in_critical_section(m, events.drop_last());
        match events.last() {
            MutexEvent::Lock(t) => if lock_step(prev, t).1 == Ok::<Acquire, Fault>(Acquire::Acquired) {
                inside.insert(t)
            } else {
                inside
            },
            MutexEvent::Unlock(t) => if unlock_step(prev, t).1 is Ok {
                inside.remove(t)
            } else {
                inside
            },
        }
    }
}

pub open spec fn holder_set(m: RawMutex) -> Set<u64> {
    match m.holder {
        Some(h) => set![h],
        None => Set::empty(),
    }
}

/// Mutual exclusion: whatever threads request of an unlocked lock, and in
/// whatever order, at most one thread is inside the critical section at a
/// time, and that thread is the lock's holder.
pub proof fn lemma_mutual_exclusion(m: RawMutex, events: Seq<MutexEvent>)
    requires
        m.holder is None,
    ensures
        in_critical_section(m, events) == holder_set(run(m, events)),
        in_critical_section(m, events).len() <= 1,
    decreases events.len(),
{
    if events.len() > 0 {
        lemma_mutual_exclusion(m, events.drop_last());
        let prev = run(m, events.drop_last());
        match events.last() {
            MutexEvent::Lock(t) => {
                if lock_step(prev, t).1 == Ok::<Acquire, Fault>(Acquire::Acquired) {
                    assert(holder_set(prev) =~= Set::empty());
                    assert(Set::<u64>::empty().insert(t) =~= set![t]);
                }
            },
            MutexEvent::Unlock(t) => {
                if unlock_step(prev, t).1 is Ok {
                    assert(set![t].remove(t) =~= Set::<u64>::empty());
                }
            },
        }
    }
    let s = holder_set(run(m, events));
    match run(m, events).holder {
        Some(h) => assert(s.len() == 1),
        None => assert(s.len() == 0),
    }
}

/// No missed wake-up: thread `a` begins a wait, releasing the lock; thread `b`
/// then takes the lock, signals one waiter and releases the lock. Then `a` has
/// been woken, and takes the lock back, ending its wait.
pub proof fn lemma_no_missed_wakeup(c: CondvarView, m: RawMutex, a: u64, b: u64)
    requires
        c.wf(),
        m.wf(),
        !c.destroyed,
        c.waiting.len() == 0,
        !c.inside(a),
        m.holder == Some(a),
        a != b,
    ensures
        ({
            let (c1, m1, w) = wait_step(c, m, a);
            let (m2, l) = lock_step(m1, b);
            let (c2, s) = notify_one_step(c1);
            let (m3, u) = unlock_step(m2, b);
            let (c3, m4, r) = reacquire_step(c2, m3, a);
            &&& w is Ok
            &&& l == Ok::<Acquire, Fault>(Acquire::Acquired)
            &&& s == Some(a)
            &&& u is Ok
            &&& r == Ok::<Acquire, Fault>(Acquire::Acquired)
            &&& m4.holder == Some(a)
            &&& !c3.inside(a)
        }),
{
    let (c1, m1, w) = wait_step(c, m, a);
    assert(c1.waiting =~= seq![a]);
    let (c2, s) = notify_one_step(c1);
    assert(c2.woken[c2.woken.len() - 1] == a);
    assert(c2.woken.contains(a));
    assert(c2.waiting.len() == 0);
    let (m3, u) = unlock_step(lock_step(m1, b).0, b);
    let (c3, m4, r) = reacquire_step(c2, m3, a);
    let k = c2.woken.index_of(a);
    assert(c2.woken[k] == a);
    assert(k == c2.woken.len() - 1);
    assert(c3.woken =~= c.woken);
    assert(!c.woken.contains(a));
}

/// A signal to all wakes every thread that was waiting, and only those become
/// newly woken.
pub proof fn lemma_notify_all_wakes_every_waiter(c: CondvarView, t: u64)
    requires
        c.wf(),
    ensures
        c.waiting.contains(t) ==> notify_all_step(c).woken.contains(t),
        notify_all_step(c).woken.contains(t) <==> c.inside(t),
        !notify_all_step(c).waiting.contains(t),
{
    let w = notify_all_step(c).woken;
    if c.waiting.contains(t) {
        let i = choose|i: int| 0 <= i < c.waiting.len() && c.waiting[i] == t;
        assert(w[c.woken.len() + i] == t);
    }
    if c.woken.contains(t) {
        let i = choose|i: int| 0 <= i < c.woken.len() && c.woken[i] == t;
        assert(w[i] == t);
    }
    if w.contains(t) {
        let i = choose|i: int| 0 <= i < w.len() && w[i] == t;
        if i < c.woken.len() {
            assert(c.woken[i] == t);
        } else {
            assert(c.waiting[i - c.woken.len()] == t);
        }
    }
}

/// A timed wait of `t` ends with its lock held in both outcomes: when a
/// signal came before the deadline the wait reports no time-out, when none
/// came it reports a time-out; either way `t` then takes the free lock back.
pub proof fn lemma_timed_wait_outcomes(c: CondvarView, m: RawMutex, t: u64)
    requires
        c.wf(),
        m.wf(),
        c.waiting.contains(t),
        m.holder is None,
        m.phase != Phase::Destroyed,
    ensures
        ({
            let (c1, e1) = expire_step(notify_all_step(c), t);
            let (_, m1, r1) = reacquire_step(c1, m, t);
            &&& e1 == Ok::<bool, Fault>(false)
            &&& r1 == Ok::<Acquire, Fault>(Acquire::Acquired)
            &&& m1.holder == Some(t)
        }),
        ({
            let (c2, e2) = expire_step(c, t);
            let (_, m2, r2) = reacquire_step(c2, m, t);
            &&& e2 == Ok::<bool, Fault>(true)
            &&& r2 == Ok::<Acquire, Fault>(Acquire::Acquired)
            &&& m2.holder == Some(t)
        }),
{
    lemma_notify_all_wakes_every_waiter(c, t);
    let c2 = expire_step(c, t).0;
    assert(c2.woken[c2.woken.len() - 1] == t);
    assert(c2.woken.contains(t));
}

/// A wait with no time to run has its deadline at the moment it began, so
/// that deadline has passed as soon as the wait begins.
pub proof fn lemma_zero_duration_deadline(now: TimeVal)
    requires
        now.wf(),
    ensures
        deadline_nanos(now, 0, 0) == now.nanos(),
{
}

/// A lock and a condition variable that nobody holds or waits on are
/// destroyed without fault, and each only once.
pub proof fn lemma_idle_pair_destroys(c: CondvarView, m: RawMutex)
    requires
        !c.destroyed,
        c.waiting.len() == 0,
        c.woken.len() == 0,
        m.phase != Phase::Destroyed,
        m.holder is None,
    ensures
        destroy_cv_step(c).1 is Ok,
        destroy_step(m).1 is Ok,
        destroy_cv_step(destroy_cv_step(c).0).1 == Err::<(), Fault>(Fault::Destroyed),
        destroy_step(destroy_step(m).0).1 == Err::<(), Fault>(Fault::Destroyed),
{
}

} // verus!

//! The raw condition variable: waits that release a held raw lock, and the
//! signals that end them.
use vstd::prelude::*;

use crate::fault::Fault;
use crate::mutex::{lock_step, Acquire, RawMutex};
use crate::timeout::{deadline, deadline_nanos, TimeSpec, TimeVal, NANOS_PER_SEC};

verus! {

/// What a condition variable holds: the threads suspended in a wait, in the
/// order they began it, and the threads whose wait has ended (by a signal or
/// its deadline) that have yet to take the lock back.
pub struct CondvarView {
    pub destroyed: bool,
    pub waiting: Seq<u64>,
    pub woken: Seq<u64>,
}

impl CondvarView {
    /// A thread is inside at most one wait; a destroyed condition variable has
    /// nobody inside a wait.
    pub open spec fn wf(&self) -> bool {
        &&& self.waiting.no_duplicates()
        &&& self.woken.no_duplicates()
        &&& self.waiting.disjoint(self.woken)
        &&& self.destroyed ==> self.waiting.len() == 0 && self.woken.len() == 0
    }

    /// Whether `thread` is inside a wait on this condition variable.
    pub open spec fn inside(&self, thread: u64) -> bool {
        self.waiting.contains(thread) || self.woken.contains(thread)
    }
}

/// `s` without the element `t`.
pub open spec fn without(s: Seq<u64>, t: u64) -> Seq<u64> {
    s.remove(s.index_of(t))
}

/// A wait by `thread` begins: in one step the lock is released and the thread
/// joins the waiters, so no signal can fall between the two.
pub open spec fn wait_step(c: CondvarView, m: RawMutex, thread: u64) -> (
    CondvarView,
    RawMutex,
    Result<(), Fault>,
) {
    if c.destroyed {
        (c, m, Err(Fault::Destroyed))
    } else if m.holder != Some(thread) {
        (c, m, Err(Fault::NotOwner))
    } else if c.inside(thread) {
        (c, m, Err(Fault::AlreadyWaiting))
    } else {
        (
            CondvarView { waiting: c.waiting.push(thread), ..c },
            RawMutex { holder: None, ..m },
            Ok(()),
        )
    }
}

/// A signal to one waiter: the longest-waiting thread, if any, is woken. The
/// native primitive promises no order among waiters; this model fixes one.
pub open spec fn notify_one_step(c: CondvarView) -> (CondvarView, Option<u64>) {
    if c.waiting.len() == 0 {
        (c, None)
    } else {
        (
            CondvarView {
                waiting: c.waiting.drop_first(),
                woken: c.woken.push(c.waiting[0]),
                ..c
            },
            Some(c.waiting[0]),
        )
    }
}

/// A signal to all waiters: every one of them is woken.
pub open spec fn notify_all_step(c: CondvarView) -> CondvarView {
    CondvarView { waiting: Seq::empty(), woken: c.woken + c.waiting, ..c }
}

/// The deadline of `thread`'s timed wait has passed: `true` when no signal
/// came first, and then the thread is woken by the deadline itself.
pub open spec fn expire_step(c: CondvarView, thread: u64) -> (CondvarView, Result<bool, Fault>) {
    if c.waiting.contains(thread) {
        (
            CondvarView {
                waiting: without(c.waiting, thread),
                woken: c.woken.push(thread),
                ..c
            },
            Ok(true),
        )
    } else if c.woken.contains(thread) {
        (c, Ok(false))
    } else {
        (c, Err(Fault::NotWaiting))
    }
}

/// A woken `thread` asks for the lock back; its wait ends once it holds it.
pub open spec fn reacquire_step(c: CondvarView, m: RawMutex, thread: u64) -> (
    CondvarView,
    RawMutex,
    Result<Acquire, Fault>,
) {
    if !c.woken.contains(thread) {
        (c, m, Err(Fault::NotWaiting))
    } else {
        let (m2, r) = lock_step(m, thread);
        if r == Ok::<Acquire, Fault>(Acquire::Acquired) {
            (CondvarView { woken: without(c.woken, thread), ..c }, m2, r)
        } else {
            (c, m2, r)
        }
    }
}

/// Destruction: at most once, and only with nobody inside a wait.
pub open spec fn destroy_cv_step(c: CondvarView) -> (CondvarView, Result<(), Fault>) {
    if c.destroyed {
        (c, Err(Fault::Destroyed))
    } else if c.waiting.len() != 0 || c.woken.len() != 0 {
        (c, Err(Fault::Occupied))
    } else {
        (CondvarView { destroyed: true, ..c }, Ok(()))
    }
}

proof fn lemma_index_of_unique(s: Seq<u64>, i: int)
    requires
        s.no_duplicates(),
        0 <= i < s.len(),
    ensures
        s.contains(s[i]),
        s.index_of(s[i]) == i,
{
    assert(s[i] == s[i]);
    let k = s.index_of(s[i]);
    assert(0 <= k < s.len() && s[k] == s[i]);
}

/// Index of the first `x` in `v`.
fn position(v: &Vec<u64>, x: u64) -> (r: Option<usize>)
    ensures
        r is None <==> !v@.contains(x),
        r matches Some(i) ==> i < v@.len() && v@[i as int] == x,
{
    let mut i: usize = 0;
    while i < v.len()
        invariant
            i <= v@.len(),
            forall|j: int| 0 <= j < i ==> v@[j] != x,
        decreases v@.len() - i,
    {
        if v[i] == x {
            return Some(i);
        }
        i = i + 1;
    }
    None
}

/// A raw condition variable.
pub struct RawCondvar {
    destroyed: bool,
    waiting: Vec<u64>,
    woken: Vec<u64>,
}

impl View for RawCondvar {
    type V = CondvarView;

    closed spec fn view(&self) -> CondvarView {
        CondvarView { destroyed: self.destroyed, waiting: self.waiting@, woken: self.woken@ }
    }
}

impl RawCondvar {
    /// A new condition variable, nobody waiting on it.
    pub fn new() -> (r: Self)
        ensures
            !r@.destroyed,
            r@.waiting.len() == 0,
            r@.woken.len() == 0,
            r@.wf(),
    {
        RawCondvar { destroyed: false, waiting: Vec::new(), woken: Vec::new() }
    }

    /// Whether `thread` is inside a wait on this condition variable.
    pub fn is_inside(&self, thread: u64) -> (r: bool)
        ensures
            r == self@.inside(thread),
    {
        position(&self.waiting, thread).is_some() || position(&self.woken, thread).is_some()
    }

    /// Begins a wait by `thread`, which must hold `mutex`: the lock is released
    /// and the thread joins the waiters, in one step. The thread is then
    /// suspended until `notify_one`, `notify_all` or (for a timed wait) `expire`
    /// wakes it, and its wait returns once `reacquire` hands the lock back.
    pub fn wait(&mut self, mutex: &mut RawMutex, thread: u64) -> (r: Result<(), Fault>)
        requires
            old(self)@.wf(),
            old(mutex).wf(),
        ensures
            (final(self)@, *final(mutex), r) == wait_step(old(self)@, *old(mutex), thread),
            final(self)@.wf(),
            final(mutex).wf(),
    {
        if self.destroyed {
            return Err(Fault::Destroyed);
        }
        if mutex.holder != Some(thread) {
            return Err(Fault::NotOwner);
        }
        if position(&self.waiting, thread).is_some() || position(&self.woken, thread).is_some() {
            return Err(Fault::AlreadyWaiting);
        }
        mutex.holder = None;
        self.waiting.push(thread);
        let ghost c = old(self)@;
        assert(self.waiting@.no_duplicates()) by {
            assert forall|i: int, j: int|
                0 <= i < self.waiting@.len() && 0 <= j < self.waiting@.len() && i != j implies
                self.waiting@[i] != self.waiting@[j] by {
                if i < c.waiting.len() && j < c.waiting.len() {
                } else if i < c.waiting.len() {
                    assert(c.waiting.contains(c.waiting[i]));
                } else {
                    assert(c.waiting.contains(c.waiting[j]));
                }
            }
        }
        assert(self.waiting@.disjoint(self.woken@)) by {
            assert forall|i: int, j: int|
                0 <= i < self.waiting@.len() && 0 <= j < self.woken@.len() implies
                self.waiting@[i] != self.woken@[j] by {
                if i == c.waiting.len() {
                    assert(c.woken.contains(c.woken[j]));
                }
            }
        }
        assert(self@ == CondvarView { waiting: c.waiting.push(thread), ..c });
        Ok(())
    }

    /// A timed wait by `thread`: begins exactly as `wait` does, and gives the
    /// absolute deadline `now + secs + nanos` to hand to the native timed wait.
    pub fn wait_timeout(
        &mut self,
        mutex: &mut RawMutex,
        thread: u64,
        now: TimeVal,
        secs: u64,
        nanos: u32,
    ) -> (r: Result<TimeSpec, Fault>)
        requires
            old(self)@.wf(),
            old(mutex).wf(),
            now.wf(),
            nanos < NANOS_PER_SEC,
        ensures
            ({
                let (c, m, w) = wait_step(old(self)@, *old(mutex), thread);
                &&& final(self)@ == c
                &&& *final(mutex) == m
                &&& r is Ok <==> w is Ok
                &&& w matches Err(f) ==> r == Err::<TimeSpec, Fault>(f)
                &&& r matches Ok(d) ==> d.wf() && d.nanos() == deadline_nanos(now, secs, nanos)
            }),
            final(self)@.wf(),
            final(mutex).wf(),
    {
        match self.wait(mutex, thread) {
            Err(f) => Err(f),
            Ok(()) => Ok(deadline(now, secs, nanos)),
        }
    }

    /// Wakes the longest-waiting thread, if any; with nobody waiting nothing
    /// changes. Returns the thread woken.
    pub fn notify_one(&mut self) -> (r: Option<u64>)
        requires
            old(self)@.wf(),
        ensures
            (final(self)@, r) == notify_one_step(old(self)@),
            final(self)@.wf(),
    {
        if self.waiting.len() == 0 {
            return None;
        }
        let ghost c = old(self)@;
        let t = self.waiting.remove(0);
        self.woken.push(t);
        assert(self.waiting@ =~= c.waiting.drop_first());
        assert(self.woken@.no_duplicates()) by {
            assert forall|i: int, j: int|
                0 <= i < self.woken@.len() && 0 <= j < self.woken@.len() && i != j implies
                self.woken@[i] != self.woken@[j] by {
                if i == c.woken.len() || j == c.woken.len() {
                    assert(c.waiting[0] == t);
                }
            }
        }
        assert(self.waiting@.disjoint(self.woken@)) by {
            assert forall|i: int, j: int|
                0 <= i < self.waiting@.len() && 0 <= j < self.woken@.len() implies
                self.waiting@[i] != self.woken@[j] by {
                assert(self.waiting@[i] == c.waiting[i + 1]);
            }
        }
        Some(t)
    }

    /// Wakes every waiting thread. Returns how many were woken.
    pub fn notify_all(&mut self) -> (r: usize)
        requires
            old(self)@.wf(),
        ensures
            final(self)@ == notify_all_step(old(self)@),
            r == old(self)@.waiting.len(),
            final(self)@.wf(),
    {
        let ghost c = old(self)@;
        let n = self.waiting.len();
        self.woken.append(&mut self.waiting);
        assert(self.waiting@ =~= Seq::<u64>::empty());
        assert(self.woken@.no_duplicates()) by {
            assert forall|i: int, j: int|
                0 <= i < self.woken@.len() && 0 <= j < self.woken@.len() && i != j implies
                self.woken@[i] != self.woken@[j] by {
                if i < c.woken.len() && j >= c.woken.len() {
                    assert(c.waiting[j - c.woken.len()] == self.woken@[j]);
                } else if j < c.woken.len() && i >= c.woken.len() {
                    assert(c.waiting[i - c.woken.len()] == self.woken@[i]);
                }
            }
        }
        n
    }

    /// The deadline of `thread`'s timed wait has passed. Returns `true` when the
    /// thread was still waiting (the wait timed out, and the deadline wakes it),
    /// `false` when a signal had already woken it.
    pub fn expire(&mut self, thread: u64) -> (r: Result<bool, Fault>)
        requires
            old(self)@.wf(),
        ensures
            (final(self)@, r) == expire_step(old(self)@, thread),
            final(self)@.wf(),
    {
        let ghost c = old(self)@;
        match position(&self.waiting, thread) {
            Some(i) => {
                proof {
                    lemma_index_of_unique(c.waiting, i as int);
                }
                self.waiting.remove(i);
                self.woken.push(thread);
                assert(self.woken@.no_duplicates()) by {
                    assert forall|a: int, b: int|
                        0 <= a < self.woken@.len() && 0 <= b < self.woken@.len() && a != b implies
                        self.woken@[a] != self.woken@[b] by {
                        if a == c.woken.len() {
                            assert(c.waiting[i as int] == thread);
                        } else if b == c.woken.len() {
                            assert(c.waiting[i as int] == thread);
                        }
                    }
                }
                assert(self.waiting@.disjoint(self.woken@)) by {
                    assert forall|a: int, b: int|
                        0 <= a < self.waiting@.len() && 0 <= b < self.woken@.len() implies
                        self.waiting@[a] != self.woken@[b] by {
                        if a < i {
                            assert(self.waiting@[a] == c.waiting[a]);
                        } else {
                            assert(self.waiting@[a] == c.waiting[a + 1]);
                        }
                    }
                }
                Ok(true)
            },
            None => {
                if position(&self.woken, thread).is_some() {
                    Ok(false)
                } else {
                    Err(Fault::NotWaiting)
                }
            },
        }
    }

    /// A woken `thread` asks for `mutex` back. When the lock is free the thread
    /// takes it and its wait returns; when another thread holds it, the thread
    /// stays suspended and asks again after that thread releases it.
    pub fn reacquire(&mut self, mutex: &mut RawMutex, thread: u64) -> (r: Result<Acquire, Fault>)
        requires
            old(self)@.wf(),
            old(mutex).wf(),
        ensures
            (final(self)@, *final(mutex), r) == reacquire_step(old(self)@, *old(mutex), thread),
            final(self)@.wf(),
            final(mutex).wf(),
    {
        let ghost c = old(self)@;
        match position(&self.woken, thread) {
            None => Err(Fault::NotWaiting),
            Some(i) => {
                let r = mutex.lock(thread);
                if matches!(r, Ok(Acquire::Acquired)) {
                    proof {
                        lemma_index_of_unique(c.woken, i as int);
                    }
                    self.woken.remove(i);
                    assert(self.woken@.no_duplicates()) by {
                        assert forall|a: int, b: int|
                            0 <= a < self.woken@.len() && 0 <= b < self.woken@.len() && a != b
                                implies self.woken@[a] != self.woken@[b] by {
                            let a2 = if a < i { a } else { a + 1 };
                            let b2 = if b < i { b } else { b + 1 };
                            assert(self.woken@[a] == c.woken[a2]);
                            assert(self.woken@[b] == c.woken[b2]);
                        }
                    }
                    assert(self.waiting@.disjoint(self.woken@)) by {
                        assert forall|a: int, b: int|
                            0 <= a < self.waiting@.len() && 0 <= b < self.woken@.len() implies
                            self.waiting@[a] != self.woken@[b] by {
                            let b2 = if b < i { b } else { b + 1 };
                            assert(self.woken@[b] == c.woken[b2]);
                        }
                    }
                }
                r
            },
        }
    }

    /// Releases the native resources: at most once, and only with nobody
    /// inside a wait.
    pub fn destroy(&mut self) -> (r: Result<(), Fault>)
        requires
            old(self)@.wf(),
        ensures
            (final(self)@, r) == destroy_cv_step(old(self)@),
            final(self)@.wf(),
    {
        if self.destroyed {
            Err(Fault::Destroyed)
        } else if self.waiting.len() != 0 || self.woken.len() != 0 {
            Err(Fault::Occupied)
        } else {
            self.destroyed = true;
            Ok(())
        }
    }
}

} // verus!

//! A spin lock: one flag, set while the lock is held.

use crate::atomics::store_bool;
use crate::atomics::swap_bool;
use crate::atomics::new_bool;
use crate::atomics::Done;
use crate::atomics::Made;
use crate::atomics::MemOrder;
use crate::atomics::Op;
use std::sync::atomic::AtomicBool;
use vstd::prelude::*;

verus! {

/// Whether an attempt whose swap of `true` into the flag found `prev` has
/// acquired the lock: it has exactly when the flag was clear.
pub open spec fn swap_acquires_spec(prev: bool) -> bool {
    !prev
}

pub fn swap_acquires(prev: bool) -> (r: bool)
    ensures
        r == swap_acquires_spec(prev),
{
    !prev
}

pub struct Lock {
    locked: AtomicBool,
}

impl Lock {
    /// An unlocked lock: its flag made clear. Returns the record of that.
    pub fn new() -> (r: (Lock, Made<AtomicBool, bool>))
        ensures
            r.1.atomic() == r.0.flag(),
            r.1.value() == false,
    {
        let (locked, made) = new_bool(false);
        (Lock { locked }, made)
    }

    /// The lock's flag.
    pub closed spec fn flag(&self) -> AtomicBool {
        self.locked
    }

    /// One attempt of `lock`: swap `true` into the flag. Returns the flag
    /// found (which other threads decide), whether the lock was acquired,
    /// which it is exactly when the flag was clear, and the swap made.
    pub fn try_lock(&self) -> (r: (bool, bool, Done<'_, AtomicBool, bool>))
        ensures
            r.1 == swap_acquires_spec(r.0),
            r.2.atomic() == self.flag(),
            r.2.op() == Op::Swap(true),
            r.2.order() == MemOrder::Acquire,
            r.2.outcome() == (Ok::<bool, bool>(r.0)),
    {
        let (prev, swap) = swap_bool(&self.locked, true, MemOrder::Acquire);
        (prev, swap_acquires(prev), swap)
    }

    /// Releases the lock: clear the flag. Returns the store made.
    pub fn unlock(&self) -> (r: Done<'_, AtomicBool, bool>)
        ensures
            r.atomic() == self.flag(),
            r.op() == Op::Store(false),
            r.order() == MemOrder::Release,
    {
        store_bool(&self.locked, false, MemOrder::Release)
    }
}

/// The spin lock as an interleaving of threads sees it.
pub struct LockModel {
    pub locked: bool,
    /// Threads that acquired the lock and have not released it.
    pub holders: nat,
}

impl LockModel {
    /// The state `Lock::new` leaves.
    pub open spec fn init() -> LockModel {
        LockModel { locked: false, holders: 0 }
    }

    /// At most one thread holds the lock, and one does exactly while the
    /// flag is set.
    pub open spec fn inv(self) -> bool {
        &&& self.holders <= 1
        &&& (self.holders == 1 <==> self.locked)
    }

    /// A thread runs `try_lock`.
    pub open spec fn try_lock(self) -> LockModel {
        if swap_acquires_spec(self.locked) {
            LockModel { locked: true, holders: self.holders + 1 }
        } else {
            LockModel { locked: true, ..self }
        }
    }

    /// The holder runs `unlock`.
    pub open spec fn unlock(self) -> LockModel
        recommends
            self.holders > 0,
    {
        LockModel { locked: false, holders: (self.holders - 1) as nat }
    }
}

/// One step of one thread.
pub enum LockStep {
    TryLock,
    Unlock,
}

impl LockModel {
    pub open spec fn enabled(self, step: LockStep) -> bool {
        match step {
            LockStep::TryLock => true,
            LockStep::Unlock => self.holders > 0,
        }
    }

    pub open spec fn step(self, step: LockStep) -> LockModel {
        match step {
            LockStep::TryLock => self.try_lock(),
            LockStep::Unlock => self.unlock(),
        }
    }

    /// The state after taking `steps` in order, or `None` when one of them
    /// is not enabled where it is taken.
    pub open spec fn run(self, steps: Seq<LockStep>) -> Option<LockModel>
        decreases steps.len(),
    {
        if steps.len() == 0 {
            Some(self)
        } else if self.enabled(steps[0]) {
            self.step(steps[0]).run(steps.drop_first())
        } else {
            None
        }
    }
}

/// Mutual exclusion: the lock starts free, and every attempt and every
/// release keeps at most one holder, present exactly while the flag is set;
/// an attempt acquires exactly when the flag is clear, and releasing what it
/// acquired restores the state before it.
pub proof fn lemma_lock_mutual_exclusion(m: LockModel)
    requires
        m.inv(),
    ensures
        LockModel::init().inv(),
        m.try_lock().inv(),
        m.holders > 0 ==> m.unlock().inv(),
        m.try_lock().holders == m.holders + 1 <==> !m.locked,
        !m.locked ==> m.try_lock().unlock() == m,
{
}

proof fn lemma_lock_run_keeps_inv(m: LockModel, steps: Seq<LockStep>)
    requires
        m.inv(),
    ensures
        m.run(steps) matches Some(end) ==> end.inv(),
    decreases steps.len(),
{
    if steps.len() > 0 && m.enabled(steps[0]) {
        lemma_lock_mutual_exclusion(m);
        lemma_lock_run_keeps_inv(m.step(steps[0]), steps.drop_first());
    }
}

/// In every run from a new lock, however the threads interleave, at most
/// one thread holds the lock, and one does exactly while the flag is set.
pub proof fn lemma_lock_runs_exclude(steps: Seq<LockStep>)
    ensures
        LockModel::init().run(steps) matches Some(end) ==> end.holders <= 1 && (end.holders == 1
            <==> end.locked),
{
    lemma_lock_mutual_exclusion(LockModel::init());
    lemma_lock_run_keeps_inv(LockModel::init(), steps);
}

} // verus!

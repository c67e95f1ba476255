//! The futex-style wait and wake calls of the `atomic_wait` crate, each
//! returning a record of the call, and the processor's spin-wait hint.

use std::sync::atomic::AtomicU32;
use vstd::prelude::*;

verus! {

/// The record of a wait on `atomic` while it holds `value`.
pub struct Waited<'a> {
    atomic: &'a AtomicU32,
    value: u32,
}

impl<'a> Waited<'a> {
    pub closed spec fn atomic(self) -> AtomicU32 {
        *self.atomic
    }

    pub closed spec fn value(self) -> u32 {
        self.value
    }

    /// The value waited on.
    pub fn waited_on(&self) -> (r: u32)
        ensures
            r == self.value(),
    {
        self.value
    }
}

/// The record of a wake of one (`all` false) or every thread waiting on
/// `atomic`.
pub struct Woke<'a> {
    atomic: &'a AtomicU32,
    all: bool,
}

impl<'a> Woke<'a> {
    pub closed spec fn atomic(self) -> AtomicU32 {
        *self.atomic
    }

    pub closed spec fn all(self) -> bool {
        self.all
    }

    /// Whether every waiter was woken.
    pub fn woke_all(&self) -> (r: bool)
        ensures
            r == self.all(),
    {
        self.all
    }
}

/// `atomic_wait::wait`: blocks while the atomic holds `value`, until woken;
/// it may also return spuriously. Nothing is claimed of the state afterwards.
#[verifier::external_body]
pub(crate) fn wait<'a>(atomic: &'a AtomicU32, value: u32) -> (r: Waited<'a>)
    ensures
        r.atomic() == *atomic,
        r.value() == value,
{
    atomic_wait::wait(atomic, value);
    Waited { atomic, value }
}

/// `atomic_wait::wake_one`: wakes one thread waiting on the atomic, if any.
#[verifier::external_body]
pub(crate) fn wake_one<'a>(atomic: &'a AtomicU32) -> (r: Woke<'a>)
    ensures
        r.atomic() == *atomic,
        !r.all(),
{
    atomic_wait::wake_one(atomic);
    Woke { atomic, all: false }
}

/// `atomic_wait::wake_all`: wakes every thread waiting on the atomic.
#[verifier::external_body]
pub(crate) fn wake_all<'a>(atomic: &'a AtomicU32) -> (r: Woke<'a>)
    ensures
        r.atomic() == *atomic,
        r.all(),
{
    atomic_wait::wake_all(atomic);
    Woke { atomic, all: true }
}

/// `std::hint::spin_loop`: a hint to the processor that the caller is
/// busy-waiting; it has no effect on any value.
#[verifier::external_body]
pub(crate) fn spin_hint() {
    std::hint::spin_loop()
}

} // verus!

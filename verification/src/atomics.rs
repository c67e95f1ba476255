//! The std atomic operations the protocols make, each behind a wrapper that
//! returns a record of the operation: which word, which operation with
//! which arguments and memory ordering, and what it returned; and the
//! constructors, which record the value a word was made with. A record is
//! made only here, by the wrapper that made the call, so a step that
//! returns one shows what it did. What a call returns is decided by other
//! threads; of a compare-and-exchange the std documentation gives the
//! relation of its outcome to `current`, stated below. Each wrapper
//! requires the orderings that std accepts for the operation (others
//! panic).

use std::sync::atomic::AtomicBool;
use std::sync::atomic::AtomicU32;
use std::sync::atomic::AtomicUsize;
use std::sync::atomic::Ordering;
use vstd::prelude::*;

verus! {

/// A memory ordering: the variants of std's `Ordering`.
#[derive(Clone, Copy, PartialEq, Eq, Structural, Debug)]
pub enum MemOrder {
    Relaxed,
    Release,
    Acquire,
    AcqRel,
    SeqCst,
}

/// The std ordering of the same name.
pub fn to_std(order: MemOrder) -> (r: Ordering)
    ensures
        order == MemOrder::Relaxed ==> r == Ordering::Relaxed,
        order == MemOrder::Release ==> r == Ordering::Release,
        order == MemOrder::Acquire ==> r == Ordering::Acquire,
        order == MemOrder::AcqRel ==> r == Ordering::AcqRel,
        order == MemOrder::SeqCst ==> r == Ordering::SeqCst,
{
    match order {
        MemOrder::Relaxed => Ordering::Relaxed,
        MemOrder::Release => Ordering::Release,
        MemOrder::Acquire => Ordering::Acquire,
        MemOrder::AcqRel => Ordering::AcqRel,
        MemOrder::SeqCst => Ordering::SeqCst,
    }
}

/// An atomic operation and its arguments.
pub enum Op<T> {
    Load,
    Store(T),
    Swap(T),
    /// `current`, then `new`.
    CompareExchange(T, T),
    /// `current`, then `new`.
    CompareExchangeWeak(T, T),
    FetchAdd(T),
    FetchSub(T),
}

/// The record of one atomic operation `op` made on `atomic` with the
/// ordering `order` (for a compare-and-exchange, the ordering on success,
/// and `failure` the ordering on failure). Its outcome is what the
/// operation returned: `Ok` of the previous value, for a
/// compare-and-exchange its result, for a store `Ok` of the value stored.
pub struct Done<'a, A, T> {
    atomic: &'a A,
    op: Op<T>,
    order: MemOrder,
    failure: Option<MemOrder>,
    outcome: Result<T, T>,
}

impl<'a, A, T> Done<'a, A, T> {
    pub closed spec fn atomic(self) -> A {
        *self.atomic
    }

    pub closed spec fn op(self) -> Op<T> {
        self.op
    }

    pub closed spec fn order(self) -> MemOrder {
        self.order
    }

    /// The failure ordering of a compare-and-exchange; none for the others.
    pub closed spec fn failure(self) -> Option<MemOrder> {
        self.failure
    }

    pub closed spec fn outcome(self) -> Result<T, T> {
        self.outcome
    }

    /// The value the operation returned, whether `Ok` or `Err`.
    pub open spec fn found(self) -> T {
        match self.outcome() {
            Ok(v) => v,
            Err(v) => v,
        }
    }

    /// The operation made.
    pub fn operation(&self) -> (r: &Op<T>)
        ensures
            *r == self.op(),
    {
        &self.op
    }

    /// The ordering it was made with.
    pub fn ordering(&self) -> (r: MemOrder)
        ensures
            r == self.order(),
    {
        self.order
    }

    /// What it returned.
    pub fn result(&self) -> (r: &Result<T, T>)
        ensures
            *r == self.outcome(),
    {
        &self.outcome
    }
}

/// The record of an atomic word `atomic` made holding `value`.
pub struct Made<A, T> {
    atomic: Ghost<A>,
    value: T,
}

impl<A, T> Made<A, T> {
    pub closed spec fn atomic(self) -> A {
        self.atomic@
    }

    pub closed spec fn value(self) -> T {
        self.value
    }

    /// The value the word was made with.
    pub fn initial(&self) -> (r: &T)
        ensures
            *r == self.value(),
    {
        &self.value
    }
}

/// The record of a fence with the ordering `order`.
pub struct Fenced {
    order: MemOrder,
}

impl Fenced {
    pub closed spec fn order(self) -> MemOrder {
        self.order
    }

    /// The ordering of the fence.
    pub fn ordering(&self) -> (r: MemOrder)
        ensures
            r == self.order(),
    {
        self.order
    }
}

/// Orderings that a load, or the failure case of a compare-and-exchange,
/// accepts: all but `Release` and `AcqRel`.
pub open spec fn load_ordering(order: MemOrder) -> bool {
    order != MemOrder::Release && order != MemOrder::AcqRel
}

/// Orderings that a store accepts: all but `Acquire` and `AcqRel`.
pub open spec fn store_ordering(order: MemOrder) -> bool {
    order != MemOrder::Acquire && order != MemOrder::AcqRel
}

/// `AtomicBool::new`: a word holding `value`.
#[verifier::external_body]
pub(crate) fn new_bool(value: bool) -> (r: (AtomicBool, Made<AtomicBool, bool>))
    ensures
        r.1.atomic() == r.0,
        r.1.value() == value,
{
    let atomic = AtomicBool::new(value);
    let made = Made { atomic: Ghost(atomic), value };
    (atomic, made)
}

/// `AtomicBool::load`: returns the value held, which other threads decide.
#[verifier::external_body]
pub(crate) fn load_bool<'a>(atomic: &'a AtomicBool, order: MemOrder) -> (r: (bool, Done<'a, AtomicBool, bool>))
    requires
        load_ordering(order),
    ensures
        r.1.atomic() == *atomic,
        r.1.op() == (Op::<bool>::Load),
        r.1.order() == order,
        r.1.failure() is None,
        r.1.outcome() == (Ok::<bool, bool>(r.0)),
{
    let found = atomic.load(to_std(order));
    (found, Done { atomic, op: Op::Load, order, failure: None, outcome: Ok(found) })
}

/// `AtomicBool::store`: writes `value`.
#[verifier::external_body]
pub(crate) fn store_bool<'a>(atomic: &'a AtomicBool, value: bool, order: MemOrder) -> (r: Done<'a, AtomicBool, bool>)
    requires
        store_ordering(order),
    ensures
        r.atomic() == *atomic,
        r.op() == Op::Store(value),
        r.order() == order,
        r.failure() is None,
        r.outcome() == (Ok::<bool, bool>(value)),
{
    atomic.store(value, to_std(order));
    Done { atomic, op: Op::Store(value), order, failure: None, outcome: Ok(value) }
}

/// `AtomicBool::swap`: writes `value` and returns the previous value.
#[verifier::external_body]
pub(crate) fn swap_bool<'a>(atomic: &'a AtomicBool, value: bool, order: MemOrder) -> (r: (bool, Done<'a, AtomicBool, bool>))
    ensures
        r.1.atomic() == *atomic,
        r.1.op() == Op::Swap(value),
        r.1.order() == order,
        r.1.failure() is None,
        r.1.outcome() == (Ok::<bool, bool>(r.0)),
{
    let prev = atomic.swap(value, to_std(order));
    (prev, Done { atomic, op: Op::Swap(value), order, failure: None, outcome: Ok(prev) })
}

/// `AtomicU32::new`: a word holding `value`.
#[verifier::external_body]
pub(crate) fn new_u32(value: u32) -> (r: (AtomicU32, Made<AtomicU32, u32>))
    ensures
        r.1.atomic() == r.0,
        r.1.value() == value,
{
    let atomic = AtomicU32::new(value);
    let made = Made { atomic: Ghost(atomic), value };
    (atomic, made)
}

/// `AtomicU32::load`: returns the value held, which other threads decide.
#[verifier::external_body]
pub(crate) fn load_u32<'a>(atomic: &'a AtomicU32, order: MemOrder) -> (r: (u32, Done<'a, AtomicU32, u32>))
    requires
        load_ordering(order),
    ensures
        r.1.atomic() == *atomic,
        r.1.op() == (Op::<u32>::Load),
        r.1.order() == order,
        r.1.failure() is None,
        r.1.outcome() == (Ok::<u32, u32>(r.0)),
{
    let found = atomic.load(to_std(order));
    (found, Done { atomic, op: Op::Load, order, failure: None, outcome: Ok(found) })
}

/// `AtomicU32::store`: writes `value`.
#[verifier::external_body]
pub(crate) fn store_u32<'a>(atomic: &'a AtomicU32, value: u32, order: MemOrder) -> (r: Done<'a, AtomicU32, u32>)
    requires
        store_ordering(order),
    ensures
        r.atomic() == *atomic,
        r.op() == Op::Store(value),
        r.order() == order,
        r.failure() is None,
        r.outcome() == (Ok::<u32, u32>(value)),
{
    atomic.store(value, to_std(order));
    Done { atomic, op: Op::Store(value), order, failure: None, outcome: Ok(value) }
}

/// `AtomicU32::swap`: writes `value` and returns the previous value.
#[verifier::external_body]
pub(crate) fn swap_u32<'a>(atomic: &'a AtomicU32, value: u32, order: MemOrder) -> (r: (u32, Done<'a, AtomicU32, u32>))
    ensures
        r.1.atomic() == *atomic,
        r.1.op() == Op::Swap(value),
        r.1.order() == order,
        r.1.failure() is None,
        r.1.outcome() == (Ok::<u32, u32>(r.0)),
{
    let prev = atomic.swap(value, to_std(order));
    (prev, Done { atomic, op: Op::Swap(value), order, failure: None, outcome: Ok(prev) })
}

/// `AtomicU32::fetch_sub`: subtracts `value` (wrapping) and returns the previous value.
#[verifier::external_body]
pub(crate) fn fetch_sub_u32<'a>(atomic: &'a AtomicU32, value: u32, order: MemOrder) -> (r: (u32, Done<'a, AtomicU32, u32>))
    ensures
        r.1.atomic() == *atomic,
        r.1.op() == Op::FetchSub(value),
        r.1.order() == order,
        r.1.failure() is None,
        r.1.outcome() == (Ok::<u32, u32>(r.0)),
{
    let prev = atomic.fetch_sub(value, to_std(order));
    (prev, Done { atomic, op: Op::FetchSub(value), order, failure: None, outcome: Ok(prev) })
}

/// `AtomicU32::compare_exchange`: writes `new` only if the value equals `current`.
/// Claimed: `Ok` carries the previous value, which is `current`; `Err` carries the value found, which differs from `current` (the strong
/// form never fails spuriously).
/// Whether it succeeds, other threads decide.
#[verifier::external_body]
pub(crate) fn compare_exchange_u32<'a>(
    atomic: &'a AtomicU32,
    current: u32,
    new: u32,
    success: MemOrder,
    failure: MemOrder,
) -> (r: (Result<u32, u32>, Done<'a, AtomicU32, u32>))
    requires
        load_ordering(failure),
    ensures
        r.1.atomic() == *atomic,
        r.1.op() == Op::CompareExchange(current, new),
        r.1.order() == success,
        r.1.failure() == Some(failure),
        r.1.outcome() == r.0,
        r.1.outcome() matches Ok(v) ==> v == current,
        r.1.outcome() matches Err(v) ==> v != current,
{
    let outcome = atomic.compare_exchange(current, new, to_std(success), to_std(failure));
    (outcome, Done { atomic, op: Op::CompareExchange(current, new), order: success, failure: Some(failure), outcome })
}

/// `AtomicU32::compare_exchange_weak`: writes `new` only if the value equals `current`.
/// Claimed: `Ok` carries the previous value, which is `current`; `Err` carries the value found (the weak form may also fail
/// spuriously, when the value equals `current`).
/// Whether it succeeds, other threads decide.
#[verifier::external_body]
pub(crate) fn compare_exchange_weak_u32<'a>(
    atomic: &'a AtomicU32,
    current: u32,
    new: u32,
    success: MemOrder,
    failure: MemOrder,
) -> (r: (Result<u32, u32>, Done<'a, AtomicU32, u32>))
    requires
        load_ordering(failure),
    ensures
        r.1.atomic() == *atomic,
        r.1.op() == Op::CompareExchangeWeak(current, new),
        r.1.order() == success,
        r.1.failure() == Some(failure),
        r.1.outcome() == r.0,
        r.1.outcome() matches Ok(v) ==> v == current,
{
    let outcome = atomic.compare_exchange_weak(current, new, to_std(success), to_std(failure));
    (outcome, Done { atomic, op: Op::CompareExchangeWeak(current, new), order: success, failure: Some(failure), outcome })
}

/// `AtomicUsize::new`: a word holding `value`.
#[verifier::external_body]
pub(crate) fn new_usize(value: usize) -> (r: (AtomicUsize, Made<AtomicUsize, usize>))
    ensures
        r.1.atomic() == r.0,
        r.1.value() == value,
{
    let atomic = AtomicUsize::new(value);
    let made = Made { atomic: Ghost(atomic), value };
    (atomic, made)
}

/// `AtomicUsize::load`: returns the value held, which other threads decide.
#[verifier::external_body]
pub(crate) fn load_usize<'a>(atomic: &'a AtomicUsize, order: MemOrder) -> (r: (usize, Done<'a, AtomicUsize, usize>))
    requires
        load_ordering(order),
    ensures
        r.1.atomic() == *atomic,
        r.1.op() == (Op::<usize>::Load),
        r.1.order() == order,
        r.1.failure() is None,
        r.1.outcome() == (Ok::<usize, usize>(r.0)),
{
    let found = atomic.load(to_std(order));
    (found, Done { atomic, op: Op::Load, order, failure: None, outcome: Ok(found) })
}

/// `AtomicUsize::fetch_add`: adds `value` (wrapping) and returns the previous value.
#[verifier::external_body]
pub(crate) fn fetch_add_usize<'a>(atomic: &'a AtomicUsize, value: usize, order: MemOrder) -> (r: (usize, Done<'a, AtomicUsize, usize>))
    ensures
        r.1.atomic() == *atomic,
        r.1.op() == Op::FetchAdd(value),
        r.1.order() == order,
        r.1.failure() is None,
        r.1.outcome() == (Ok::<usize, usize>(r.0)),
{
    let prev = atomic.fetch_add(value, to_std(order));
    (prev, Done { atomic, op: Op::FetchAdd(value), order, failure: None, outcome: Ok(prev) })
}

/// `AtomicUsize::fetch_sub`: subtracts `value` (wrapping) and returns the previous value.
#[verifier::external_body]
pub(crate) fn fetch_sub_usize<'a>(atomic: &'a AtomicUsize, value: usize, order: MemOrder) -> (r: (usize, Done<'a, AtomicUsize, usize>))
    ensures
        r.1.atomic() == *atomic,
        r.1.op() == Op::FetchSub(value),
        r.1.order() == order,
        r.1.failure() is None,
        r.1.outcome() == (Ok::<usize, usize>(r.0)),
{
    let prev = atomic.fetch_sub(value, to_std(order));
    (prev, Done { atomic, op: Op::FetchSub(value), order, failure: None, outcome: Ok(prev) })
}

/// `AtomicUsize::compare_exchange_weak`: writes `new` only if the value equals `current`.
/// Claimed: `Ok` carries the previous value, which is `current`; `Err` carries the value found (the weak form may also fail
/// spuriously, when the value equals `current`).
/// Whether it succeeds, other threads decide.
#[verifier::external_body]
pub(crate) fn compare_exchange_weak_usize<'a>(
    atomic: &'a AtomicUsize,
    current: usize,
    new: usize,
    success: MemOrder,
    failure: MemOrder,
) -> (r: (Result<usize, usize>, Done<'a, AtomicUsize, usize>))
    requires
        load_ordering(failure),
    ensures
        r.1.atomic() == *atomic,
        r.1.op() == Op::CompareExchangeWeak(current, new),
        r.1.order() == success,
        r.1.failure() == Some(failure),
        r.1.outcome() == r.0,
        r.1.outcome() matches Ok(v) ==> v == current,
{
    let outcome = atomic.compare_exchange_weak(current, new, to_std(success), to_std(failure));
    (outcome, Done { atomic, op: Op::CompareExchangeWeak(current, new), order: success, failure: Some(failure), outcome })
}

/// `std::sync::atomic::fence`: orders memory accesses around it; it has no
/// effect on any value. It panics on `Relaxed`, which is excluded.
#[verifier::external_body]
pub(crate) fn fence(order: MemOrder) -> (r: Fenced)
    requires
        order != MemOrder::Relaxed,
    ensures
        r.order() == order,
{
    std::sync::atomic::fence(to_std(order));
    Fenced { order }
}

} // verus!

//! A mutex whose waiters sleep on a futex. The state word is `UNLOCKED`,
//! `LOCKED` (held, no thread known to be waiting) or `CONTENDED` (held,
//! threads may be waiting).

use crate::atomics::compare_exchange_u32;
use crate::atomics::load_u32;
use crate::atomics::swap_u32;
use crate::atomics::new_u32;
use crate::atomics::Done;
use crate::atomics::Made;
use crate::atomics::MemOrder;
use crate::atomics::Op;
use crate::futex::Waited;
use crate::futex::Woke;
use crate::futex::spin_hint;
use crate::futex::wait;
use crate::futex::wake_one;
use crate::word::cas_result;
use std::sync::atomic::AtomicU32;
use vstd::prelude::*;

verus! {

pub const UNLOCKED: u32 = 0;

pub const LOCKED: u32 = 1;

pub const CONTENDED: u32 = 2;

/// How many times a contending thread re-reads the state before it stops
/// spinning.
pub const SPIN_LIMIT: u32 = 100;

/// A contending thread keeps spinning while the lock is held with no
/// waiters and it has spun fewer than `SPIN_LIMIT` times.
pub open spec fn keeps_spinning_spec(observed: u32, spins: u32) -> bool {
    observed == LOCKED && spins < SPIN_LIMIT
}

/// Whether a contending thread whose swap to `CONTENDED` found `prev` has
/// acquired the lock.
pub open spec fn swap_acquires_spec(prev: u32) -> bool {
    prev == UNLOCKED
}

/// Whether the unlocking thread, whose swap to `UNLOCKED` found `prev`, must
/// wake a waiter.
pub open spec fn unlock_wakes_spec(prev: u32) -> bool {
    prev == CONTENDED
}

pub fn keeps_spinning(observed: u32, spins: u32) -> (r: bool)
    ensures
        r == keeps_spinning_spec(observed, spins),
{
    observed == LOCKED && spins < SPIN_LIMIT
}

pub fn swap_acquires(prev: u32) -> (r: bool)
    ensures
        r == swap_acquires_spec(prev),
{
    prev == UNLOCKED
}

pub fn unlock_wakes(prev: u32) -> (r: bool)
    ensures
        r == unlock_wakes_spec(prev),
{
    prev == CONTENDED
}

/// Each of `loads` is a relaxed load of `word`.
pub open spec fn loads_of(word: AtomicU32, loads: Seq<Done<AtomicU32, u32>>) -> bool {
    forall|i: int| 0 <= i < loads.len() ==> (#[trigger] loads[i]).atomic() == word && loads[i].op()
        == Op::<u32>::Load && loads[i].order() == MemOrder::Relaxed
}

/// The first `spins` of `loads` each found the lock held with no waiters,
/// with fewer than `SPIN_LIMIT` spins made before it.
pub open spec fn kept_spinning(loads: Seq<Done<AtomicU32, u32>>, spins: u32) -> bool {
    forall|i: int| 0 <= i < spins ==> keeps_spinning_spec((#[trigger] loads[i]).found(), i as u32)
}

/// The loads of a contending thread's spin, `loads`, after `spins`
/// spins: each is a load of `word`; it spun after each load but the last,
/// each time while `keeps_spinning_spec` held of the state loaded and the
/// spins made so far, and stopped at the last, where it did not hold.
pub open spec fn spun_while_held(word: AtomicU32, loads: Seq<Done<AtomicU32, u32>>, spins: u32) -> bool {
    &&& loads.len() == spins + 1
    &&& loads_of(word, loads)
    &&& kept_spinning(loads, spins)
    &&& !keeps_spinning_spec(loads[spins as int].found(), spins)
}

/// Recording one more load keeps what the earlier loads found.
proof fn lemma_spin_load_push(loads: Seq<Done<AtomicU32, u32>>, load: Done<AtomicU32, u32>, spins: u32)
    requires
        kept_spinning(loads, spins),
        loads.len() == spins,
    ensures
        kept_spinning(loads.push(load), spins),
        loads.push(load)[spins as int] == load,
        forall|i: int| 0 <= i < loads.len() ==> loads.push(load)[i] == loads[i],
{
    assert forall|i: int| 0 <= i < spins implies keeps_spinning_spec(
        (#[trigger] loads.push(load)[i]).found(),
        i as u32,
    ) by {
        assert(loads.push(load)[i] == loads[i]);
    }
}

pub struct Mutex {
    state: AtomicU32,
}

impl Mutex {
    /// A mutex in the `UNLOCKED` state: its word made `UNLOCKED`. Returns
    /// the record of that.
    pub fn new() -> (r: (Mutex, Made<AtomicU32, u32>))
        ensures
            r.1.atomic() == r.0.word(),
            r.1.value() == UNLOCKED,
    {
        let (state, made) = new_u32(UNLOCKED);
        (Mutex { state }, made)
    }

    /// The state word.
    pub closed spec fn word(&self) -> AtomicU32 {
        self.state
    }

    /// The fast path of locking: one exchange from `UNLOCKED` to `LOCKED`.
    /// Returns its outcome, which other threads decide (`Ok` when the lock
    /// was unlocked and is now held, else `Err` with the state found), and
    /// the exchange made.
    pub fn try_lock(&self) -> (r: (Result<u32, u32>, Done<'_, AtomicU32, u32>))
        ensures
            r.0 matches Ok(v) ==> v == UNLOCKED,
            r.0 matches Err(v) ==> v != UNLOCKED,
            r.1.atomic() == self.word(),
            r.1.op() == Op::CompareExchange(UNLOCKED, LOCKED),
            r.1.order() == MemOrder::Acquire,
            r.1.failure() == Some(MemOrder::Relaxed),
            r.1.outcome() == r.0,
    {
        compare_exchange_u32(&self.state, UNLOCKED, LOCKED, MemOrder::Acquire, MemOrder::Relaxed)
    }

    /// The first part of the contended path: load the state and spin while
    /// it is held with no waiters, at most `SPIN_LIMIT` times, then try the
    /// fast path once more. Returns the number of spins, the outcome of the
    /// exchange, the loads made and the exchange made.
    pub fn spin_then_try(&self) -> (r: (
        u32,
        Result<u32, u32>,
        Ghost<Seq<Done<'_, AtomicU32, u32>>>,
        Done<'_, AtomicU32, u32>,
    ))
        ensures
            r.0 <= SPIN_LIMIT,
            spun_while_held(self.word(), r.2@, r.0),
            r.1 matches Ok(v) ==> v == UNLOCKED,
            r.1 matches Err(v) ==> v != UNLOCKED,
            r.3.atomic() == self.word(),
            r.3.op() == Op::CompareExchange(UNLOCKED, LOCKED),
            r.3.order() == MemOrder::Acquire,
            r.3.failure() == Some(MemOrder::Relaxed),
            r.3.outcome() == r.1,
    {
        let mut spins: u32 = 0;
        let ghost mut loads: Seq<Done<'_, AtomicU32, u32>> = Seq::empty();
        loop
            invariant_except_break
                loads.len() == spins,
            invariant
                spins <= SPIN_LIMIT,
                loads_of(self.word(), loads),
                kept_spinning(loads, spins),
            ensures
                spun_while_held(self.word(), loads, spins),
            decreases SPIN_LIMIT - spins,
        {
            let (observed, load) = load_u32(&self.state, MemOrder::Relaxed);
            proof {
                lemma_spin_load_push(loads, load, spins);
                loads = loads.push(load);
            }
            if !keeps_spinning(observed, spins) {
                break;
            }
            spins = spins + 1;
            spin_hint();
        }
        let (outcome, exchange) = compare_exchange_u32(
            &self.state,
            UNLOCKED,
            LOCKED,
            MemOrder::Acquire,
            MemOrder::Relaxed,
        );
        (spins, outcome, Ghost(loads), exchange)
    }

    /// One round of the contended path: swap in `CONTENDED`; the lock is
    /// acquired when the swap found it `UNLOCKED`, else the thread waits
    /// while the state is `CONTENDED`, until woken (or spuriously), and the
    /// caller tries again. It wakes nobody. Returns the state found, whether
    /// the lock was acquired, the swap made and the wait made, if any.
    pub fn contended_step(&self) -> (r: (u32, bool, Done<'_, AtomicU32, u32>, Option<Waited<'_>>))
        ensures
            r.1 == swap_acquires_spec(r.0),
            r.2.atomic() == self.word(),
            r.2.op() == Op::Swap(CONTENDED),
            r.2.order() == MemOrder::Acquire,
            r.2.outcome() == (Ok::<u32, u32>(r.0)),
            r.3 is Some <==> !r.1,
            r.3 matches Some(w) ==> w.atomic() == self.word() && w.value() == CONTENDED,
    {
        let (prev, swap) = swap_u32(&self.state, CONTENDED, MemOrder::Acquire);
        if swap_acquires(prev) {
            (prev, true, swap, None)
        } else {
            let waited = wait(&self.state, CONTENDED);
            (prev, false, swap, Some(waited))
        }
    }

    /// Releases the lock (what dropping a guard does): swap in `UNLOCKED` and,
    /// when the state was `CONTENDED`, wake one waiter. Returns the state
    /// found, the swap made and the wake made, if any.
    pub fn unlock(&self) -> (r: (u32, Done<'_, AtomicU32, u32>, Option<Woke<'_>>))
        ensures
            r.1.atomic() == self.word(),
            r.1.op() == Op::Swap(UNLOCKED),
            r.1.order() == MemOrder::Release,
            r.1.outcome() == (Ok::<u32, u32>(r.0)),
            r.2 is Some <==> unlock_wakes_spec(r.0),
            r.2 matches Some(w) ==> w.atomic() == self.word() && !w.all(),
    {
        let (prev, swap) = swap_u32(&self.state, UNLOCKED, MemOrder::Release);
        if unlock_wakes(prev) {
            let woke = wake_one(&self.state);
            (prev, swap, Some(woke))
        } else {
            (prev, swap, None)
        }
    }
}

/// The mutex as an interleaving of threads sees it: the state word and how
/// many threads stand at each point of the protocol.
pub struct MutexModel {
    pub state: u32,
    /// Threads that acquired the lock and have not yet swapped it back.
    pub holders: nat,
    /// Threads in the spinning part of the contended path.
    pub spinning: nat,
    /// Threads about to swap in `CONTENDED`.
    pub swapping: nat,
    /// Threads whose swap found the lock held, about to wait.
    pub waiting: nat,
    /// Threads asleep on the futex.
    pub asleep: nat,
    /// Unlocking threads that found `CONTENDED` and have not yet woken one.
    pub pending_wakes: nat,
}

impl MutexModel {
    /// The state in which `Mutex::new` leaves the lock, with no threads.
    pub open spec fn init() -> MutexModel {
        MutexModel {
            state: UNLOCKED,
            holders: 0,
            spinning: 0,
            swapping: 0,
            waiting: 0,
            asleep: 0,
            pending_wakes: 0,
        }
    }

    /// The word is one of the three states; at most one thread holds the
    /// lock, and one does exactly when the word is not `UNLOCKED`; a sleeper
    /// is never stranded: while one sleeps, the word is `CONTENDED` (so the
    /// next unlock wakes one) or some awake thread will swap `CONTENDED` in or
    /// wake one.
    pub open spec fn inv(self) -> bool {
        &&& self.state == UNLOCKED || self.state == LOCKED || self.state == CONTENDED
        &&& self.holders <= 1
        &&& (self.holders == 0 <==> self.state == UNLOCKED)
        &&& self.asleep > 0 ==> (self.state == CONTENDED || self.pending_wakes > 0
            || self.swapping > 0 || self.waiting > 0)
    }

    /// A thread calls `lock`: the fast-path exchange `UNLOCKED` to `LOCKED`.
    pub open spec fn fast_lock(self) -> MutexModel {
        match cas_result(self.state, UNLOCKED) {
            Ok(_) => MutexModel { state: LOCKED, holders: self.holders + 1, ..self },
            Err(_) => MutexModel { spinning: self.spinning + 1, ..self },
        }
    }

    /// A spinning thread stops spinning and retries the fast-path exchange.
    pub open spec fn spin_exit(self) -> MutexModel
        recommends
            self.spinning > 0,
    {
        match cas_result(self.state, UNLOCKED) {
            Ok(_) => MutexModel {
                state: LOCKED,
                holders: self.holders + 1,
                spinning: (self.spinning - 1) as nat,
                ..self
            },
            Err(_) => MutexModel {
                spinning: (self.spinning - 1) as nat,
                swapping: self.swapping + 1,
                ..self
            },
        }
    }

    /// A contending thread swaps in `CONTENDED`.
    pub open spec fn swap_contended(self) -> MutexModel
        recommends
            self.swapping > 0,
    {
        if swap_acquires_spec(self.state) {
            MutexModel {
                state: CONTENDED,
                holders: self.holders + 1,
                swapping: (self.swapping - 1) as nat,
                ..self
            }
        } else {
            MutexModel {
                state: CONTENDED,
                swapping: (self.swapping - 1) as nat,
                waiting: self.waiting + 1,
                ..self
            }
        }
    }

    /// A thread calls the futex wait on `CONTENDED`: it sleeps only if the
    /// word still holds `CONTENDED`, else it returns at once.
    pub open spec fn futex_wait(self) -> MutexModel
        recommends
            self.waiting > 0,
    {
        if self.state == CONTENDED {
            MutexModel { waiting: (self.waiting - 1) as nat, asleep: self.asleep + 1, ..self }
        } else {
            MutexModel {
                waiting: (self.waiting - 1) as nat,
                swapping: self.swapping + 1,
                ..self
            }
        }
    }

    /// A sleeper returns from the futex wait without being woken.
    pub open spec fn spurious_wake(self) -> MutexModel
        recommends
            self.asleep > 0,
    {
        MutexModel { asleep: (self.asleep - 1) as nat, swapping: self.swapping + 1, ..self }
    }

    /// The holder swaps in `UNLOCKED`.
    pub open spec fn unlock_swap(self) -> MutexModel
        recommends
            self.holders > 0,
    {
        MutexModel {
            state: UNLOCKED,
            holders: (self.holders - 1) as nat,
            pending_wakes: if unlock_wakes_spec(self.state) {
                self.pending_wakes + 1
            } else {
                self.pending_wakes
            },
            ..self
        }
    }

    /// An unlocking thread wakes one sleeper, if any.
    pub open spec fn wake(self) -> MutexModel
        recommends
            self.pending_wakes > 0,
    {
        if self.asleep > 0 {
            MutexModel {
                pending_wakes: (self.pending_wakes - 1) as nat,
                asleep: (self.asleep - 1) as nat,
                swapping: self.swapping + 1,
                ..self
            }
        } else {
            MutexModel { pending_wakes: (self.pending_wakes - 1) as nat, ..self }
        }
    }
}

/// One step of one thread in the mutex protocol.
pub enum MutexStep {
    FastLock,
    SpinExit,
    SwapContended,
    FutexWait,
    SpuriousWake,
    UnlockSwap,
    Wake,
}

impl MutexModel {
    /// Whether some thread stands where it can take `step`.
    pub open spec fn enabled(self, step: MutexStep) -> bool {
        match step {
            MutexStep::FastLock => true,
            MutexStep::SpinExit => self.spinning > 0,
            MutexStep::SwapContended => self.swapping > 0,
            MutexStep::FutexWait => self.waiting > 0,
            MutexStep::SpuriousWake => self.asleep > 0,
            MutexStep::UnlockSwap => self.holders > 0,
            MutexStep::Wake => self.pending_wakes > 0,
        }
    }

    pub open spec fn step(self, step: MutexStep) -> MutexModel {
        match step {
            MutexStep::FastLock => self.fast_lock(),
            MutexStep::SpinExit => self.spin_exit(),
            MutexStep::SwapContended => self.swap_contended(),
            MutexStep::FutexWait => self.futex_wait(),
            MutexStep::SpuriousWake => self.spurious_wake(),
            MutexStep::UnlockSwap => self.unlock_swap(),
            MutexStep::Wake => self.wake(),
        }
    }

    /// The state after taking `steps` in order, or `None` when one of them
    /// is not enabled where it is taken.
    pub open spec fn run(self, steps: Seq<MutexStep>) -> Option<MutexModel>
        decreases steps.len(),
    {
        if steps.len() == 0 {
            Some(self)
        } else if self.enabled(steps[0]) {
            self.step(steps[0]).run(steps.drop_first())
        } else {
            None
        }
    }
}

/// The mutex starts in a state of its invariant.
pub proof fn lemma_mutex_init()
    ensures
        MutexModel::init().inv(),
{
}

/// Every step of every thread keeps the mutex invariant: the lock is held by
/// at most one thread, exactly when the word is not `UNLOCKED`, and no
/// sleeper is left with nobody to wake it. An uncontended lock and unlock
/// restore the state before them.
pub proof fn lemma_mutex_steps_keep_inv(m: MutexModel)
    requires
        m.inv(),
    ensures
        m.fast_lock().inv(),
        m.spinning > 0 ==> m.spin_exit().inv(),
        m.swapping > 0 ==> m.swap_contended().inv(),
        m.waiting > 0 ==> m.futex_wait().inv(),
        m.asleep > 0 ==> m.spurious_wake().inv(),
        m.holders > 0 ==> m.unlock_swap().inv(),
        m.pending_wakes > 0 ==> m.wake().inv(),
        m.state == UNLOCKED ==> m.fast_lock().holders == 1 && m.fast_lock().unlock_swap() == m,
{
}

proof fn lemma_mutex_run_keeps_inv(m: MutexModel, steps: Seq<MutexStep>)
    requires
        m.inv(),
    ensures
        m.run(steps) matches Some(end) ==> end.inv(),
    decreases steps.len(),
{
    if steps.len() > 0 && m.enabled(steps[0]) {
        lemma_mutex_steps_keep_inv(m);
        lemma_mutex_run_keeps_inv(m.step(steps[0]), steps.drop_first());
    }
}

/// In every run of the protocol from a new mutex, however the threads'
/// steps interleave: the word is one of the three states; at most one
/// thread holds the lock, one does exactly
/// when the word is not `UNLOCKED`, and while a thread sleeps the word is
/// `CONTENDED` or an awake thread will set it or wake a sleeper.
pub proof fn lemma_mutex_mutual_exclusion(steps: Seq<MutexStep>)
    ensures
        MutexModel::init().run(steps) matches Some(end) ==> {
            &&& end.state == UNLOCKED || end.state == LOCKED || end.state == CONTENDED
            &&& end.holders <= 1
            &&& (end.holders == 0 <==> end.state == UNLOCKED)
            &&& end.asleep > 0 ==> (end.state == CONTENDED || end.pending_wakes > 0
                || end.swapping > 0 || end.waiting > 0)
        },
{
    lemma_mutex_init();
    lemma_mutex_run_keeps_inv(MutexModel::init(), steps);
}

} // verus!

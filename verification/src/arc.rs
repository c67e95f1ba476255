//! The two reference counts of a shared allocation with strong (`Arc`) and
//! weak (`Weak`) handles: `ref_count` counts the strong handles, and
//! `alloc_ref_count` counts every handle (each strong handle holds a weak
//! one). The value is dropped when the last strong handle goes, the
//! allocation freed when the last handle goes.

use crate::atomics::compare_exchange_weak_usize;
use crate::atomics::fetch_add_usize;
use crate::atomics::fetch_sub_usize;
use crate::atomics::load_usize;
use crate::atomics::new_usize;
use crate::atomics::Done;
use crate::atomics::Fenced;
use crate::atomics::Made;
use crate::atomics::MemOrder;
use crate::atomics::Op;
use crate::atomics::fence;
use crate::word::cas_result;
use std::sync::atomic::AtomicUsize;
use vstd::prelude::*;

verus! {

/// Above this previous count an increment aborts the process, so that the
/// count cannot overflow however many threads increment at once.
pub const COUNT_LIMIT: usize = usize::MAX / 2;

/// Whether an increment that found `prev` must abort.
pub open spec fn increment_overflows_spec(prev: usize) -> bool {
    prev > COUNT_LIMIT
}

/// Whether a decrement that found `prev` released the last handle counted.
pub open spec fn decrement_was_last_spec(prev: usize) -> bool {
    prev == 1
}

/// A decrement releases the last handle exactly when it leaves the count at
/// zero: the count it found was one. Any other count found (handles left,
/// or a count already at zero that the decrement wraps) is not the last.
pub proof fn lemma_decrement_last_exactly_at_one(prev: usize)
    ensures
        decrement_was_last_spec(prev) <==> (prev >= 1 && prev - 1 == 0),
        prev > 1 ==> !decrement_was_last_spec(prev),
        prev == 0 ==> !decrement_was_last_spec(prev),
{
}

/// An increment aborts exactly when the count it found is above half the
/// range: every count up to `usize::MAX / 2` is incremented without
/// aborting, and an aborting increment leaves the count short of overflow
/// by at least half the range, so that concurrent increments racing past
/// the check cannot wrap it. The decision is monotone in the count.
pub proof fn lemma_increment_aborts_above_half(prev: usize, other: usize)
    ensures
        increment_overflows_spec(prev) <==> prev > usize::MAX / 2,
        prev <= usize::MAX / 2 ==> !increment_overflows_spec(prev) && prev + 1 <= usize::MAX,
        increment_overflows_spec(prev) && other >= prev ==> increment_overflows_spec(other),
        !increment_overflows_spec(prev) ==> usize::MAX - prev >= usize::MAX / 2,
{
}

pub fn increment_overflows(prev: usize) -> (r: bool)
    ensures
        r == increment_overflows_spec(prev),
        r <==> prev > usize::MAX / 2,
{
    prev > COUNT_LIMIT
}

pub fn decrement_was_last(prev: usize) -> (r: bool)
    ensures
        r == decrement_was_last_spec(prev),
        r <==> prev == 1,
{
    prev == 1
}

/// What an upgrading weak handle does after observing the strong count `n`.
pub enum UpgradeDecision {
    /// No strong handle is left: the upgrade fails.
    Gone,
    /// The count is at its maximum: the caller panics.
    Overflow,
    /// Try to exchange `n` for `n + 1`.
    TryIncrement,
}

pub open spec fn upgrade_decision_spec(n: usize) -> UpgradeDecision {
    if n == 0 {
        UpgradeDecision::Gone
    } else if n == usize::MAX {
        UpgradeDecision::Overflow
    } else {
        UpgradeDecision::TryIncrement
    }
}

pub fn upgrade_decision(n: usize) -> (r: UpgradeDecision)
    ensures
        r == upgrade_decision_spec(n),
{
    if n == 0 {
        UpgradeDecision::Gone
    } else if n == usize::MAX {
        UpgradeDecision::Overflow
    } else {
        UpgradeDecision::TryIncrement
    }
}

/// The outcome of one round of `upgrade`.
pub enum UpgradeStep {
    /// No strong handle is left: the upgrade returns `None`.
    Gone,
    /// The strong count was at its maximum; the caller panics.
    Overflow,
    /// The strong count was incremented and the weak count too; the flag
    /// says whether the weak increment must abort.
    Upgraded(bool),
    /// The exchange failed; try again from the newly observed count.
    Retry(usize),
}

/// What one round of `upgrade` did: its exchange of the strong count, and
/// the increment of the weak count that a successful exchange is followed
/// by.
pub struct UpgradeRound<'a> {
    pub exchange: Option<Done<'a, AtomicUsize, usize>>,
    pub weak_increment: Option<Done<'a, AtomicUsize, usize>>,
}

/// A round of `upgrade` on the counts `strong` and `alloc` from the
/// observation `observed` that did `round` and returned `step`: at 0 it
/// fails and at the maximum it overflows, doing nothing; else it exchanges
/// `observed` for one more strong handle; when that succeeds it counts one
/// more handle and reports `Upgraded` with the abort decision on the count
/// it found; when it fails it retries from the count found.
pub open spec fn upgrade_round_spec(
    strong: AtomicUsize,
    alloc: AtomicUsize,
    observed: usize,
    round: UpgradeRound,
    step: UpgradeStep,
) -> bool {
    match upgrade_decision_spec(observed) {
        UpgradeDecision::Gone => step == UpgradeStep::Gone && round.exchange is None
            && round.weak_increment is None,
        UpgradeDecision::Overflow => step == UpgradeStep::Overflow && round.exchange is None
            && round.weak_increment is None,
        UpgradeDecision::TryIncrement => round.exchange matches Some(e) && e.atomic() == strong
            && e.op() == Op::CompareExchangeWeak(observed, (observed + 1) as usize) && e.order()
            == MemOrder::Relaxed && e.failure() == Some(MemOrder::Relaxed) && match e.outcome() {
            Ok(_) => round.weak_increment matches Some(w) && w.atomic() == alloc && w.op()
                == Op::FetchAdd(1usize) && w.order() == MemOrder::Relaxed && step == UpgradeStep::Upgraded(
                increment_overflows_spec(w.found()),
            ),
            Err(found) => step == UpgradeStep::Retry(found) && round.weak_increment is None,
        },
    }
}

pub struct ArcCounts {
    ref_count: AtomicUsize,
    alloc_ref_count: AtomicUsize,
}

impl ArcCounts {
    /// The counts of a fresh allocation held by one strong handle: both
    /// made 1 (one strong handle, one handle in all). Returns the records of
    /// that, the strong count's first.
    pub fn new() -> (r: (ArcCounts, Made<AtomicUsize, usize>, Made<AtomicUsize, usize>))
        ensures
            r.1.atomic() == r.0.strong_word(),
            r.1.value() == 1,
            r.2.atomic() == r.0.alloc_word(),
            r.2.value() == 1,
    {
        let (ref_count, strong_made) = new_usize(1);
        let (alloc_ref_count, alloc_made) = new_usize(1);
        (ArcCounts { ref_count, alloc_ref_count }, strong_made, alloc_made)
    }

    /// The strong count.
    pub closed spec fn strong_word(&self) -> AtomicUsize {
        self.ref_count
    }

    /// The count of all handles.
    pub closed spec fn alloc_word(&self) -> AtomicUsize {
        self.alloc_ref_count
    }

    /// Cloning a weak handle (and downgrading a strong one): count one
    /// handle more. Returns the count found, whether the process must abort,
    /// and the increment made.
    pub fn clone_weak(&self) -> (r: (usize, bool, Done<'_, AtomicUsize, usize>))
        ensures
            r.1 == increment_overflows_spec(r.0),
            r.1 <==> r.0 > usize::MAX / 2,
            r.2.atomic() == self.alloc_word(),
            r.2.op() == Op::FetchAdd(1usize),
            r.2.order() == MemOrder::Relaxed,
            r.2.outcome() == (Ok::<usize, usize>(r.0)),
    {
        let (prev, increment) = fetch_add_usize(&self.alloc_ref_count, 1, MemOrder::Relaxed);
        (prev, increment_overflows(prev), increment)
    }

    /// Dropping a weak handle: count one handle less, with release ordering.
    /// Returns the count found, whether it was the last (so that the
    /// allocation must be freed), the decrement made, and the acquire fence
    /// made exactly when it was the last.
    pub fn drop_weak(&self) -> (r: (usize, bool, Done<'_, AtomicUsize, usize>, Option<Fenced>))
        ensures
            r.1 == decrement_was_last_spec(r.0),
            r.1 <==> r.0 == 1,
            r.2.atomic() == self.alloc_word(),
            r.2.op() == Op::FetchSub(1usize),
            r.2.order() == MemOrder::Release,
            r.2.outcome() == (Ok::<usize, usize>(r.0)),
            r.3 is Some <==> r.1,
            r.3 matches Some(f) ==> f.order() == MemOrder::Acquire,
    {
        let (prev, decrement) = fetch_sub_usize(&self.alloc_ref_count, 1, MemOrder::Release);
        if decrement_was_last(prev) {
            let fenced = fence(MemOrder::Acquire);
            (prev, true, decrement, Some(fenced))
        } else {
            (prev, false, decrement, None)
        }
    }

    /// Cloning a strong handle, after cloning its weak handle: count one
    /// strong handle more. Returns the count found, whether the process must
    /// abort, and the increment made.
    pub fn clone_strong(&self) -> (r: (usize, bool, Done<'_, AtomicUsize, usize>))
        ensures
            r.1 == increment_overflows_spec(r.0),
            r.1 <==> r.0 > usize::MAX / 2,
            r.2.atomic() == self.strong_word(),
            r.2.op() == Op::FetchAdd(1usize),
            r.2.order() == MemOrder::Relaxed,
            r.2.outcome() == (Ok::<usize, usize>(r.0)),
    {
        let (prev, increment) = fetch_add_usize(&self.ref_count, 1, MemOrder::Relaxed);
        (prev, increment_overflows(prev), increment)
    }

    /// Dropping a strong handle, before its weak handle is dropped: count one
    /// strong handle less, with release ordering. Returns the count found,
    /// whether it was the last (so that the value must be dropped), the
    /// decrement made, and the acquire fence made exactly when it was the
    /// last.
    pub fn drop_strong(&self) -> (r: (usize, bool, Done<'_, AtomicUsize, usize>, Option<Fenced>))
        ensures
            r.1 == decrement_was_last_spec(r.0),
            r.1 <==> r.0 == 1,
            r.2.atomic() == self.strong_word(),
            r.2.op() == Op::FetchSub(1usize),
            r.2.order() == MemOrder::Release,
            r.2.outcome() == (Ok::<usize, usize>(r.0)),
            r.3 is Some <==> r.1,
            r.3 matches Some(f) ==> f.order() == MemOrder::Acquire,
    {
        let (prev, decrement) = fetch_sub_usize(&self.ref_count, 1, MemOrder::Release);
        if decrement_was_last(prev) {
            let fenced = fence(MemOrder::Acquire);
            (prev, true, decrement, Some(fenced))
        } else {
            (prev, false, decrement, None)
        }
    }

    /// The strong count an upgrade starts from: a load, returned with the
    /// load made.
    pub fn observe_strong(&self) -> (r: (usize, Done<'_, AtomicUsize, usize>))
        ensures
            r.1.atomic() == self.strong_word(),
            r.1.op() == (Op::<usize>::Load),
            r.1.order() == MemOrder::Relaxed,
            r.1.outcome() == (Ok::<usize, usize>(r.0)),
    {
        load_usize(&self.ref_count, MemOrder::Relaxed)
    }

    /// One round of `upgrade` from the observed strong count `observed`:
    /// fail when it is 0, report an overflow at the maximum, else try to
    /// exchange it for one more; on success count the weak handle of the new
    /// strong one. Returns the round's outcome and what it did.
    pub fn upgrade_step(&self, observed: usize) -> (r: (UpgradeStep, UpgradeRound<'_>))
        ensures
            upgrade_round_spec(self.strong_word(), self.alloc_word(), observed, r.1, r.0),
            r.0 is Gone <==> observed == 0,
            r.0 is Overflow <==> observed == usize::MAX,
            r.0 is Upgraded ==> 0 < observed < usize::MAX,
    {
        match upgrade_decision(observed) {
            UpgradeDecision::Gone => (
                UpgradeStep::Gone,
                UpgradeRound { exchange: None, weak_increment: None },
            ),
            UpgradeDecision::Overflow => (
                UpgradeStep::Overflow,
                UpgradeRound { exchange: None, weak_increment: None },
            ),
            UpgradeDecision::TryIncrement => {
                let (outcome, exchange) = compare_exchange_weak_usize(
                    &self.ref_count,
                    observed,
                    observed + 1,
                    MemOrder::Relaxed,
                    MemOrder::Relaxed,
                );
                match outcome {
                    Ok(_) => {
                        let (_, must_abort, increment) = self.clone_weak();
                        (
                            UpgradeStep::Upgraded(must_abort),
                            UpgradeRound { exchange: Some(exchange), weak_increment: Some(increment) },
                        )
                    },
                    Err(found) => (
                        UpgradeStep::Retry(found),
                        UpgradeRound { exchange: Some(exchange), weak_increment: None },
                    ),
                }
            },
        }
    }

    /// The check of `get_mut`: a relaxed load of the strong count, and
    /// whether it is one, followed then by an acquire fence. Returns the count
    /// found, the answer, the load made and the fence made, if any.
    pub fn is_unique(&self) -> (r: (usize, bool, Done<'_, AtomicUsize, usize>, Option<Fenced>))
        ensures
            r.1 == (r.0 == 1),
            r.2.atomic() == self.strong_word(),
            r.2.op() == (Op::<usize>::Load),
            r.2.order() == MemOrder::Relaxed,
            r.2.outcome() == (Ok::<usize, usize>(r.0)),
            r.3 is Some <==> r.1,
            r.3 matches Some(f) ==> f.order() == MemOrder::Acquire,
    {
        let (n, load) = load_usize(&self.ref_count, MemOrder::Relaxed);
        if n == 1 {
            let fenced = fence(MemOrder::Acquire);
            (n, true, load, Some(fenced))
        } else {
            (n, false, load, None)
        }
    }
}

/// The counts as an interleaving of threads sees them, with how many
/// handles stand at each point. Counts are unbounded here: runs stay below
/// `COUNT_LIMIT` handles, where the original aborts.
pub struct ArcModel {
    pub strong: nat,
    pub alloc: nat,
    /// Complete strong and weak handles.
    pub arcs: nat,
    pub weaks: nat,
    /// Clones of a strong handle that counted their weak handle but not yet
    /// the strong one.
    pub cloning: nat,
    /// Upgrades whose exchange succeeded, whose weak handle is not yet
    /// counted.
    pub upgraded: nat,
    /// Dropped strong handles whose weak handle is not yet dropped.
    pub dropping: nat,
    /// Droppers that found the strong count at one and have not yet dropped
    /// the value.
    pub clearing: nat,
    pub value_present: bool,
    pub freed: bool,
}

impl ArcModel {
    /// The state `Arc::new` leaves: one strong handle, the value present.
    pub open spec fn init() -> ArcModel {
        ArcModel {
            strong: 1,
            alloc: 1,
            arcs: 1,
            weaks: 0,
            cloning: 0,
            upgraded: 0,
            dropping: 0,
            clearing: 0,
            value_present: true,
            freed: false,
        }
    }

    /// The strong count counts the strong handles; the weak count counts
    /// every handle; the value is present exactly while a strong handle is
    /// counted or its last dropper has yet to drop it, and it is dropped by
    /// one dropper only; the allocation is freed exactly when no handle is
    /// counted.
    pub open spec fn inv(self) -> bool {
        &&& self.strong == self.arcs + self.upgraded
        &&& self.alloc == self.arcs + self.weaks + self.cloning + self.dropping
        &&& self.cloning > 0 ==> self.arcs > 0
        &&& self.upgraded > 0 ==> self.weaks > 0
        &&& self.clearing <= 1
        &&& self.clearing == 1 ==> self.strong == 0 && self.value_present
        &&& (self.value_present <==> (self.strong > 0 || self.clearing > 0))
        &&& (self.freed <==> self.alloc == 0)
    }

    /// A strong handle is downgraded, or a weak handle cloned.
    pub open spec fn clone_weak(self) -> ArcModel
        recommends
            self.arcs > 0 || self.weaks > 0,
    {
        ArcModel { alloc: self.alloc + 1, weaks: self.weaks + 1, ..self }
    }

    /// Cloning a strong handle counts its weak handle first...
    pub open spec fn clone_strong_start(self) -> ArcModel
        recommends
            self.arcs > 0,
    {
        ArcModel { alloc: self.alloc + 1, cloning: self.cloning + 1, ..self }
    }

    /// ... then the strong one.
    pub open spec fn clone_strong_finish(self) -> ArcModel
        recommends
            self.cloning > 0,
    {
        ArcModel {
            strong: self.strong + 1,
            arcs: self.arcs + 1,
            cloning: (self.cloning - 1) as nat,
            ..self
        }
    }

    /// An upgrading weak handle acts on its observation `n` of the strong
    /// count (the panic at the maximum is no step here).
    pub open spec fn upgrade_try(self, n: usize) -> ArcModel
        recommends
            self.weaks > 0,
            n != usize::MAX,
    {
        match upgrade_decision_spec(n) {
            UpgradeDecision::TryIncrement => match cas_result(self.strong, n as nat) {
                Ok(_) => ArcModel {
                    strong: self.strong + 1,
                    upgraded: self.upgraded + 1,
                    ..self
                },
                Err(_) => self,
            },
            _ => self,
        }
    }

    /// A successful upgrade counts the weak handle of its new strong handle.
    pub open spec fn upgrade_finish(self) -> ArcModel
        recommends
            self.upgraded > 0,
    {
        ArcModel {
            alloc: self.alloc + 1,
            arcs: self.arcs + 1,
            upgraded: (self.upgraded - 1) as nat,
            ..self
        }
    }

    /// A strong handle is dropped: its strong count first.
    pub open spec fn drop_strong(self) -> ArcModel
        recommends
            self.arcs > 0,
    {
        ArcModel {
            strong: (self.strong - 1) as nat,
            arcs: (self.arcs - 1) as nat,
            dropping: self.dropping + 1,
            clearing: if self.strong == 1 {
                self.clearing + 1
            } else {
                self.clearing
            },
            ..self
        }
    }

    /// The last strong dropper drops the value.
    pub open spec fn clear(self) -> ArcModel
        recommends
            self.clearing > 0,
    {
        ArcModel { clearing: (self.clearing - 1) as nat, value_present: false, ..self }
    }

    /// A dropped strong handle drops its weak handle.
    pub open spec fn drop_strong_weak(self) -> ArcModel
        recommends
            self.dropping > 0,
    {
        ArcModel {
            alloc: (self.alloc - 1) as nat,
            dropping: (self.dropping - 1) as nat,
            freed: self.alloc == 1,
            ..self
        }
    }

    /// A weak handle is dropped.
    pub open spec fn drop_weak(self) -> ArcModel
        recommends
            self.weaks > 0,
    {
        ArcModel {
            alloc: (self.alloc - 1) as nat,
            weaks: (self.weaks - 1) as nat,
            freed: self.alloc == 1,
            ..self
        }
    }
}

/// One step of one thread on the counts.
pub enum ArcStep {
    CloneWeak,
    CloneStrongStart,
    CloneStrongFinish,
    /// An upgrading weak handle acts on its observation of the strong count.
    UpgradeTry(usize),
    UpgradeFinish,
    DropStrong,
    Clear,
    DropStrongWeak,
    DropWeak,
}

impl ArcModel {
    /// Whether some thread stands where it can take `step`. A handle that an
    /// unfinished clone or upgrade borrows is not dropped meanwhile.
    pub open spec fn enabled(self, step: ArcStep) -> bool {
        match step {
            ArcStep::CloneWeak => self.arcs > 0 || self.weaks > 0,
            ArcStep::CloneStrongStart => self.arcs > 0,
            ArcStep::CloneStrongFinish => self.cloning > 0,
            ArcStep::UpgradeTry(n) => self.weaks > 0 && n != usize::MAX,
            ArcStep::UpgradeFinish => self.upgraded > 0,
            ArcStep::DropStrong => self.arcs > 0 && (self.cloning == 0 || self.arcs > 1),
            ArcStep::Clear => self.clearing > 0,
            ArcStep::DropStrongWeak => self.dropping > 0,
            ArcStep::DropWeak => self.weaks > 0 && (self.upgraded == 0 || self.weaks > 1),
        }
    }

    pub open spec fn step(self, step: ArcStep) -> ArcModel {
        match step {
            ArcStep::CloneWeak => self.clone_weak(),
            ArcStep::CloneStrongStart => self.clone_strong_start(),
            ArcStep::CloneStrongFinish => self.clone_strong_finish(),
            ArcStep::UpgradeTry(n) => self.upgrade_try(n),
            ArcStep::UpgradeFinish => self.upgrade_finish(),
            ArcStep::DropStrong => self.drop_strong(),
            ArcStep::Clear => self.clear(),
            ArcStep::DropStrongWeak => self.drop_strong_weak(),
            ArcStep::DropWeak => self.drop_weak(),
        }
    }

    /// The state after taking `steps` in order, or `None` when one of them
    /// is not enabled where it is taken.
    pub open spec fn run(self, steps: Seq<ArcStep>) -> Option<ArcModel>
        decreases steps.len(),
    {
        if steps.len() == 0 {
            Some(self)
        } else if self.enabled(steps[0]) {
            self.step(steps[0]).run(steps.drop_first())
        } else {
            None
        }
    }
}

/// The counts start in a state of their invariant.
pub proof fn lemma_arc_init()
    ensures
        ArcModel::init().inv(),
{
}

/// Every step keeps the invariant, so however the handles are cloned,
/// upgraded and dropped: once the value is dropped no strong handle exists
/// and none can be made (an upgrade from then on fails); the value is
/// dropped once, by the last strong handle; the allocation is freed only
/// when no handle is left. A handle borrowed by an unfinished clone or
/// upgrade is not dropped meanwhile. When `get_mut`'s check finds a strong
/// count of one, exactly one strong handle is counted. Dropping a clone of
/// a weak handle restores the counts, and so does dropping the strong
/// handle that an upgrade from an up-to-date count made.
pub proof fn lemma_arc_steps_keep_inv(m: ArcModel, n: usize)
    requires
        m.inv(),
    ensures
        m.arcs > 0 || m.weaks > 0 ==> m.clone_weak().inv(),
        m.arcs > 0 ==> m.clone_strong_start().inv(),
        m.cloning > 0 ==> m.clone_strong_finish().inv(),
        m.weaks > 0 && n != usize::MAX ==> m.upgrade_try(n).inv(),
        m.upgraded > 0 ==> m.upgrade_finish().inv(),
        m.arcs > 0 && (m.cloning == 0 || m.arcs > 1) ==> m.drop_strong().inv(),
        m.clearing > 0 ==> m.clear().inv() && m.value_present,
        m.dropping > 0 ==> m.drop_strong_weak().inv(),
        m.weaks > 0 && (m.upgraded == 0 || m.weaks > 1) ==> m.drop_weak().inv(),
        !m.value_present ==> m.strong == 0 && m.upgrade_try(n).strong == 0,
        m.freed ==> m.arcs == 0 && m.weaks == 0,
        m.strong == 1 ==> m.arcs + m.upgraded == 1,
        m.arcs > 0 || m.weaks > 0 ==> m.clone_weak().drop_weak() == m,
        m.weaks > 0 && 0 < n < usize::MAX && m.strong == n as nat ==> m.upgrade_try(
            n,
        ).upgrade_finish().drop_strong().drop_strong_weak() == m,
{
}

proof fn lemma_arc_run_keeps_inv(m: ArcModel, steps: Seq<ArcStep>)
    requires
        m.inv(),
    ensures
        m.run(steps) matches Some(end) ==> end.inv(),
    decreases steps.len(),
{
    if steps.len() > 0 && m.enabled(steps[0]) {
        match steps[0] {
            ArcStep::UpgradeTry(n) => lemma_arc_steps_keep_inv(m, n),
            _ => lemma_arc_steps_keep_inv(m, 0),
        }
        lemma_arc_run_keeps_inv(m.step(steps[0]), steps.drop_first());
    }
}

/// In every run from a new strong handle, however the handles are cloned,
/// upgraded and dropped across threads: the strong count counts the strong
/// handles and the weak count all handles; once the value is dropped no
/// strong handle exists and every later upgrade fails; the value is dropped
/// by one dropper, while it is present; the allocation is freed only when
/// no handle is left.
pub proof fn lemma_arc_counts(steps: Seq<ArcStep>, n: usize)
    ensures
        ArcModel::init().run(steps) matches Some(end) ==> {
            &&& end.strong == end.arcs + end.upgraded
            &&& end.alloc == end.arcs + end.weaks + end.cloning + end.dropping
            &&& !end.value_present ==> end.strong == 0 && end.upgrade_try(n).strong == 0
            &&& end.clearing <= 1
            &&& end.clearing == 1 ==> end.value_present
            &&& (end.value_present <==> (end.strong > 0 || end.clearing > 0))
            &&& (end.freed <==> end.alloc == 0)
            &&& end.freed ==> end.arcs == 0 && end.weaks == 0
        },
{
    lemma_arc_init();
    lemma_arc_run_keeps_inv(ArcModel::init(), steps);
    if let Some(end) = ArcModel::init().run(steps) {
        lemma_arc_steps_keep_inv(end, n);
    }
}

} // verus!

//! A key that the first caller initializes, lazily and exactly once.

use crate::atomics::compare_exchange_u32;
use crate::atomics::load_u32;
use crate::atomics::Done;
use crate::atomics::MemOrder;
use crate::atomics::Op;
use crate::word::cas_result;
use std::sync::atomic::AtomicU32;
use vstd::prelude::*;

verus! {

/// The value the first caller installs.
pub const KEY_VALUE: u32 = 1234;

/// The pair returned after the initializing exchange: the installed key and
/// `true` when the exchange succeeded, else the key some other caller
/// installed first and `false`.
pub open spec fn key_after_exchange_spec(exchange: Result<u32, u32>) -> (u32, bool) {
    match exchange {
        Ok(_) => (KEY_VALUE, true),
        Err(found) => (found, false),
    }
}

/// Decides the result of `get_key` from the outcome of its exchange.
pub fn key_after_exchange(exchange: Result<u32, u32>) -> (r: (u32, bool))
    ensures
        r == key_after_exchange_spec(exchange),
{
    match exchange {
        Ok(_) => (KEY_VALUE, true),
        Err(found) => (found, false),
    }
}

/// The pair returned once the load found `loaded`: none when the key is
/// unset (the exchange decides), else the key found and `false`.
pub open spec fn key_after_load_spec(loaded: u32) -> Option<(u32, bool)> {
    if loaded == 0 {
        None
    } else {
        Some((loaded, false))
    }
}

/// Decides the result of `get_key` from what its load found.
pub fn key_after_load(loaded: u32) -> (r: Option<(u32, bool)>)
    ensures
        r == key_after_load_spec(loaded),
{
    if loaded == 0 {
        None
    } else {
        Some((loaded, false))
    }
}

/// What a call of `get_key` did: its load, and the exchange it made when
/// the load found the key unset.
pub struct KeyRound<'a> {
    pub load: Done<'a, AtomicU32, u32>,
    pub exchange: Option<Done<'a, AtomicU32, u32>>,
}

/// A call of `get_key` on `key` that did `round` and returned `result`: it
/// loaded the key; when that found it set, it returned what it found with
/// `false`; else it exchanged 0 for `KEY_VALUE` and returned the pair that
/// the exchange's outcome decides.
pub open spec fn key_round_spec(key: AtomicU32, round: KeyRound, result: (u32, bool)) -> bool {
    &&& round.load.atomic() == key
    &&& round.load.op() == Op::<u32>::Load
    &&& round.load.order() == MemOrder::Relaxed
    &&& match key_after_load_spec(round.load.found()) {
        Some(pair) => round.exchange is None && result == pair,
        None => round.exchange matches Some(e) && e.atomic() == key && e.op() == Op::CompareExchange(
            0u32,
            KEY_VALUE,
        ) && e.order() == MemOrder::Relaxed && e.failure() == Some(MemOrder::Relaxed)
            && result == key_after_exchange_spec(e.outcome()),
    }
}

/// Returns the key held in `key` (0 means not yet set), setting it to
/// `KEY_VALUE` first when it is unset. The flag is `true` for the caller
/// whose exchange installed the key. Also returns what the call did.
pub fn get_key<'a>(key: &'a AtomicU32) -> (r: ((u32, bool), KeyRound<'a>))
    ensures
        r.0.0 != 0,
        r.0.1 ==> r.0.0 == KEY_VALUE,
        key_round_spec(*key, r.1, r.0),
{
    let (current, load) = load_u32(key, MemOrder::Relaxed);
    match key_after_load(current) {
        Some(pair) => (pair, KeyRound { load, exchange: None }),
        None => {
            let (outcome, exchange) = compare_exchange_u32(
                key,
                current,
                KEY_VALUE,
                MemOrder::Relaxed,
                MemOrder::Relaxed,
            );
            (key_after_exchange(outcome), KeyRound { load, exchange: Some(exchange) })
        },
    }
}

/// How many of `results` report that their caller installed the key.
pub open spec fn count_installed(results: Seq<(u32, bool)>) -> nat
    decreases results.len(),
{
    if results.len() == 0 {
        0
    } else {
        count_installed(results.drop_last()) + if results.last().1 {
            1nat
        } else {
            0nat
        }
    }
}

/// The key word as the interleaving of callers sees it: its value, and what
/// `get_key` has returned so far.
pub struct KeyModel {
    pub word: u32,
    pub results: Seq<(u32, bool)>,
}

/// One caller's last step in `get_key`.
pub enum KeyStep {
    /// A caller that found the word unset runs its exchange (the word may
    /// have been set by another caller since).
    Exchange,
    /// A caller whose load found the word set returns it.
    Read,
}

impl KeyModel {
    /// An unset word, nothing returned yet.
    pub open spec fn init() -> KeyModel {
        KeyModel { word: 0, results: Seq::empty() }
    }

    /// Every caller so far was handed `KEY_VALUE`, and the word is set
    /// exactly when one of them (and only one) was told it installed it.
    pub open spec fn inv(self) -> bool {
        &&& self.results.len() > 0 ==> self.word == KEY_VALUE
        &&& forall|i: int| 0 <= i < self.results.len() ==> (#[trigger] self.results[i]).0 == KEY_VALUE
        &&& (self.word == 0 && count_installed(self.results) == 0) || (self.word == KEY_VALUE
            && count_installed(self.results) == 1)
    }

    pub open spec fn enabled(self, step: KeyStep) -> bool {
        match step {
            KeyStep::Exchange => true,
            KeyStep::Read => self.word != 0,
        }
    }

    /// The pair `get_key` returns from the step.
    pub open spec fn result(self, step: KeyStep) -> (u32, bool) {
        match step {
            KeyStep::Exchange => key_after_exchange_spec(cas_result(self.word, 0u32)),
            KeyStep::Read => (self.word, false),
        }
    }

    pub open spec fn step(self, step: KeyStep) -> KeyModel {
        KeyModel {
            word: if self.word == 0 && step is Exchange {
                KEY_VALUE
            } else {
                self.word
            },
            results: self.results.push(self.result(step)),
        }
    }

    /// The state after taking `steps` in order, or `None` when one of them
    /// is not enabled where it is taken.
    pub open spec fn run(self, steps: Seq<KeyStep>) -> Option<KeyModel>
        decreases steps.len(),
    {
        if steps.len() == 0 {
            Some(self)
        } else if self.enabled(steps[0]) {
            self.step(steps[0]).run(steps.drop_first())
        } else {
            None
        }
    }
}

/// Each step of a caller keeps the invariant.
pub proof fn lemma_key_step_keeps_inv(m: KeyModel, step: KeyStep)
    requires
        m.inv(),
        m.enabled(step),
    ensures
        m.step(step).inv(),
        m.result(step).0 == KEY_VALUE,
{
    let next = m.step(step);
    assert(next.results.drop_last() =~= m.results);
    assert forall|i: int| 0 <= i < next.results.len() implies (#[trigger] next.results[i]).0
        == KEY_VALUE by {
        if i < m.results.len() {
            assert(next.results[i] == m.results[i]);
        }
    }
}

proof fn lemma_key_run_keeps_inv(m: KeyModel, steps: Seq<KeyStep>)
    requires
        m.inv(),
    ensures
        m.run(steps) matches Some(end) ==> end.inv(),
    decreases steps.len(),
{
    if steps.len() > 0 && m.enabled(steps[0]) {
        lemma_key_step_keeps_inv(m, steps[0]);
        lemma_key_run_keeps_inv(m.step(steps[0]), steps.drop_first());
    }
}

/// However the callers of `get_key` interleave, starting from an unset
/// word: every caller is handed `KEY_VALUE`, and at most one is told that
/// it installed the key, exactly one as soon as any caller has returned,
/// from which point the word holds `KEY_VALUE`.
pub proof fn lemma_key_installed_once(steps: Seq<KeyStep>)
    ensures
        KeyModel::init().run(steps) matches Some(end) ==> {
            &&& forall|i: int| 0 <= i < end.results.len() ==> (#[trigger] end.results[i]).0 == KEY_VALUE
            &&& count_installed(end.results) <= 1
            &&& end.results.len() > 0 ==> count_installed(end.results) == 1
            &&& end.results.len() > 0 ==> end.word == KEY_VALUE
        },
{
    assert(KeyModel::init().inv());
    lemma_key_run_keeps_inv(KeyModel::init(), steps);
}

} // verus!

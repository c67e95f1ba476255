//! A reader-writer lock whose waiters sleep on a futex. The state word
//! counts the readers holding the lock, or is `WRITE_LOCKED` while a writer
//! holds it.

use crate::atomics::compare_exchange_u32;
use crate::atomics::compare_exchange_weak_u32;
use crate::atomics::fetch_sub_u32;
use crate::atomics::load_u32;
use crate::atomics::store_u32;
use crate::atomics::new_u32;
use crate::atomics::Done;
use crate::atomics::Made;
use crate::atomics::MemOrder;
use crate::atomics::Op;
use crate::futex::Waited;
use crate::futex::Woke;
use crate::futex::wait;
use crate::futex::wake_all;
use crate::futex::wake_one;
use crate::word::cas_result;
use std::sync::atomic::AtomicU32;
use vstd::prelude::*;

verus! {

/// The state of a write-locked lock.
pub const WRITE_LOCKED: u32 = 0xffff_ffff;

/// The reader count at which a further reader is refused ("too many
/// readers"), so that the count never reaches `WRITE_LOCKED`.
pub const READER_LIMIT: u32 = 0xffff_fffe;

/// What a reader does after observing the state `s`.
pub enum ReadDecision {
    /// Try to exchange `s` for `s + 1`.
    TryIncrement,
    /// Refuse: the count is at `READER_LIMIT`.
    TooManyReaders,
    /// Wait while the lock is write-locked.
    Wait,
}

pub open spec fn read_decision_spec(s: u32) -> ReadDecision {
    if s < WRITE_LOCKED {
        if s == READER_LIMIT {
            ReadDecision::TooManyReaders
        } else {
            ReadDecision::TryIncrement
        }
    } else {
        ReadDecision::Wait
    }
}

pub fn read_decision(s: u32) -> (r: ReadDecision)
    ensures
        r == read_decision_spec(s),
{
    if s < WRITE_LOCKED {
        if s == READER_LIMIT {
            ReadDecision::TooManyReaders
        } else {
            ReadDecision::TryIncrement
        }
    } else {
        ReadDecision::Wait
    }
}

/// Whether the reader that releases the lock, whose decrement found `prev`,
/// was the last one and must wake a waiting writer.
pub open spec fn read_unlock_wakes_spec(prev: u32) -> bool {
    prev == 1
}

pub fn read_unlock_wakes(prev: u32) -> (r: bool)
    ensures
        r == read_unlock_wakes_spec(prev),
{
    prev == 1
}

/// The outcome of one round of `read`.
pub enum ReadStep {
    /// The read lock is held.
    Acquired,
    /// Try again from the newly observed state.
    Retry(u32),
    /// The reader count is at its limit; the caller panics.
    TooManyReaders,
}

/// What one round of `read` did: its exchange, and its wait and reload
/// when it waited for a writer.
pub struct ReadRound<'a> {
    pub exchange: Option<Done<'a, AtomicU32, u32>>,
    pub wait: Option<Waited<'a>>,
    pub reload: Option<Done<'a, AtomicU32, u32>>,
}

/// The round waited on `word` while it held `WRITE_LOCKED`, then loaded
/// `word` and retries from what it found.
pub open spec fn waited_for_writer(word: AtomicU32, round: ReadRound, step: ReadStep) -> bool {
    &&& round.wait matches Some(w) && w.atomic() == word && w.value() == WRITE_LOCKED
    &&& round.reload matches Some(l) && l.atomic() == word && l.op() == Op::<u32>::Load
        && l.order() == MemOrder::Relaxed
        && step == ReadStep::Retry(l.found())
}

/// A round of `read` on `word` from the observation `observed` that did
/// `round` and returned `step`: at the reader limit it is refused and does
/// nothing; else, below `WRITE_LOCKED`, it exchanges `observed` for one more
/// reader, and holds the read lock exactly when that succeeds; when it
/// finds `WRITE_LOCKED` instead, and when it observed `WRITE_LOCKED`, it
/// waits for the writer and retries from a new load; when it finds another
/// count, it retries from that count without waiting.
pub open spec fn read_round_spec(word: AtomicU32, observed: u32, round: ReadRound, step: ReadStep) -> bool {
    match read_decision_spec(observed) {
        ReadDecision::TooManyReaders => step == ReadStep::TooManyReaders && round.exchange is None
            && round.wait is None && round.reload is None,
        ReadDecision::TryIncrement => round.exchange matches Some(e) && e.atomic() == word && e.op()
            == Op::CompareExchangeWeak(observed, (observed + 1) as u32) && e.order() == MemOrder::Acquire
            && e.failure() == Some(MemOrder::Relaxed) && match e.outcome() {
            Ok(_) => step == ReadStep::Acquired && round.wait is None && round.reload is None,
            Err(found) => if found == WRITE_LOCKED {
                waited_for_writer(word, round, step)
            } else {
                step == ReadStep::Retry(found) && round.wait is None && round.reload is None
            },
        },
        ReadDecision::Wait => round.exchange is None && waited_for_writer(word, round, step),
    }
}

pub struct RwLock {
    state: AtomicU32,
}

impl RwLock {
    /// An unlocked lock, no readers and no writer: its word made 0. Returns
    /// the record of that.
    pub fn new() -> (r: (RwLock, Made<AtomicU32, u32>))
        ensures
            r.1.atomic() == r.0.word(),
            r.1.value() == 0,
    {
        let (state, made) = new_u32(0);
        (RwLock { state }, made)
    }

    /// The state word.
    pub closed spec fn word(&self) -> AtomicU32 {
        self.state
    }

    /// The first observation a reader starts from: a load of the state,
    /// returned with the load made.
    pub fn observe(&self) -> (r: (u32, Done<'_, AtomicU32, u32>))
        ensures
            r.1.atomic() == self.word(),
            r.1.op() == (Op::<u32>::Load),
            r.1.order() == MemOrder::Relaxed,
            r.1.outcome() == (Ok::<u32, u32>(r.0)),
    {
        load_u32(&self.state, MemOrder::Relaxed)
    }

    /// Waits while the lock is write-locked, then loads the state anew.
    fn wait_for_writer(&self) -> (r: (u32, Waited<'_>, Done<'_, AtomicU32, u32>))
        ensures
            r.1.atomic() == self.word(),
            r.1.value() == WRITE_LOCKED,
            r.2.atomic() == self.word(),
            r.2.op() == (Op::<u32>::Load),
            r.2.order() == MemOrder::Relaxed,
            r.2.outcome() == (Ok::<u32, u32>(r.0)),
    {
        let waited = wait(&self.state, WRITE_LOCKED);
        let (found, reload) = load_u32(&self.state, MemOrder::Relaxed);
        (found, waited, reload)
    }

    /// One round of `read` from the observed state `observed`: refuse at the
    /// reader limit; else try to count one more reader; when that fails
    /// finding the lock write-locked, or the lock was observed write-locked,
    /// wait while it is write-locked and return the state loaded next.
    /// Returns the round's outcome and what it did.
    pub fn read_step(&self, observed: u32) -> (r: (ReadStep, ReadRound<'_>))
        ensures
            read_round_spec(self.word(), observed, r.1, r.0),
            r.0 is TooManyReaders <==> observed == READER_LIMIT,
            r.0 is Acquired ==> observed < READER_LIMIT,
    {
        match read_decision(observed) {
            ReadDecision::TooManyReaders => (
                ReadStep::TooManyReaders,
                ReadRound { exchange: None, wait: None, reload: None },
            ),
            ReadDecision::TryIncrement => {
                let (outcome, exchange) = compare_exchange_weak_u32(
                    &self.state,
                    observed,
                    observed + 1,
                    MemOrder::Acquire,
                    MemOrder::Relaxed,
                );
                match outcome {
                    Ok(_) => (
                        ReadStep::Acquired,
                        ReadRound { exchange: Some(exchange), wait: None, reload: None },
                    ),
                    Err(found) => {
                        if found == WRITE_LOCKED {
                            let (next, waited, reload) = self.wait_for_writer();
                            (
                                ReadStep::Retry(next),
                                ReadRound {
                                    exchange: Some(exchange),
                                    wait: Some(waited),
                                    reload: Some(reload),
                                },
                            )
                        } else {
                            (
                                ReadStep::Retry(found),
                                ReadRound { exchange: Some(exchange), wait: None, reload: None },
                            )
                        }
                    },
                }
            },
            ReadDecision::Wait => {
                let (next, waited, reload) = self.wait_for_writer();
                (
                    ReadStep::Retry(next),
                    ReadRound { exchange: None, wait: Some(waited), reload: Some(reload) },
                )
            },
        }
    }

    /// One round of `write`: exchange an unlocked state for `WRITE_LOCKED`.
    /// Returns its outcome (`Ok` when the lock was unlocked and is now
    /// write-locked, else `Err` with the state found), the exchange made,
    /// and, when it failed, the wait made while the state held the value
    /// found, after which the caller tries again.
    pub fn write_step(&self) -> (r: (Result<u32, u32>, Done<'_, AtomicU32, u32>, Option<Waited<'_>>))
        ensures
            r.0 matches Ok(v) ==> v == 0,
            r.0 matches Err(v) ==> v != 0,
            r.1.atomic() == self.word(),
            r.1.op() == Op::CompareExchange(0u32, WRITE_LOCKED),
            r.1.order() == MemOrder::Acquire,
            r.1.failure() == Some(MemOrder::Relaxed),
            r.1.outcome() == r.0,
            r.2 is Some <==> r.0 is Err,
            r.0 matches Err(found) ==> (r.2 matches Some(w) && w.atomic() == self.word() && w.value()
                == found),
    {
        let (outcome, exchange) = compare_exchange_u32(
            &self.state,
            0,
            WRITE_LOCKED,
            MemOrder::Acquire,
            MemOrder::Relaxed,
        );
        match outcome {
            Ok(_) => (outcome, exchange, None),
            Err(found) => {
                let waited = wait(&self.state, found);
                (outcome, exchange, Some(waited))
            },
        }
    }

    /// Releases a read lock (what dropping a read guard does): count one
    /// reader less and, when it was the last, wake one waiting writer.
    /// Returns the count found, the decrement made and the wake made, if any.
    pub fn read_unlock(&self) -> (r: (u32, Done<'_, AtomicU32, u32>, Option<Woke<'_>>))
        ensures
            r.1.atomic() == self.word(),
            r.1.op() == Op::FetchSub(1u32),
            r.1.order() == MemOrder::Release,
            r.1.outcome() == (Ok::<u32, u32>(r.0)),
            r.2 is Some <==> read_unlock_wakes_spec(r.0),
            r.2 matches Some(w) ==> w.atomic() == self.word() && !w.all(),
    {
        let (prev, decrement) = fetch_sub_u32(&self.state, 1, MemOrder::Release);
        if read_unlock_wakes(prev) {
            let woke = wake_one(&self.state);
            (prev, decrement, Some(woke))
        } else {
            (prev, decrement, None)
        }
    }

    /// Releases the write lock (what dropping a write guard does): store the
    /// unlocked state, then wake every waiter. Returns the store and the wake
    /// made.
    pub fn write_unlock(&self) -> (r: (Done<'_, AtomicU32, u32>, Woke<'_>))
        ensures
            r.0.atomic() == self.word(),
            r.0.op() == Op::Store(0u32),
            r.0.order() == MemOrder::Release,
            r.1.atomic() == self.word(),
            r.1.all(),
    {
        let store = store_u32(&self.state, 0, MemOrder::Release);
        let woke = wake_all(&self.state);
        (store, woke)
    }
}

/// The reader-writer lock as an interleaving of threads sees it. A reader's
/// or writer's observation may be stale, so the steps take the observed
/// value as a parameter: the laws hold whatever it is.
pub struct RwLockModel {
    pub state: u32,
    /// Threads holding a read lock.
    pub readers: nat,
    /// Threads holding the write lock.
    pub writers: nat,
    /// Readers and writers awake in `read` or `write`.
    pub trying_readers: nat,
    pub trying_writers: nat,
    /// Readers and writers asleep on the futex.
    pub asleep_readers: nat,
    pub asleep_writers: nat,
    /// Releasing threads that have yet to call `wake_one` or `wake_all`.
    pub pending_wake_one: nat,
    pub pending_wake_all: nat,
}

impl RwLockModel {
    /// The state `RwLock::new` leaves, with no threads.
    pub open spec fn init() -> RwLockModel {
        RwLockModel {
            state: 0,
            readers: 0,
            writers: 0,
            trying_readers: 0,
            trying_writers: 0,
            asleep_readers: 0,
            asleep_writers: 0,
            pending_wake_one: 0,
            pending_wake_all: 0,
        }
    }

    /// Either no writer holds the lock and the word counts the readers
    /// (below the limit), or one writer holds it alone and the word is
    /// `WRITE_LOCKED`; and while a thread sleeps, the lock is held (its
    /// release will wake a waiter) or some wake is pending or some thread is
    /// awake in `read` or `write`.
    pub open spec fn inv(self) -> bool {
        &&& {
            ||| self.writers == 0 && self.state == self.readers && self.readers <= READER_LIMIT
            ||| self.writers == 1 && self.readers == 0 && self.state == WRITE_LOCKED
        }
        &&& self.asleep_readers + self.asleep_writers > 0 ==> (self.state != 0
            || self.pending_wake_one > 0 || self.pending_wake_all > 0 || self.trying_readers > 0
            || self.trying_writers > 0)
    }

    /// A thread calls `read`.
    pub open spec fn read_begin(self) -> RwLockModel {
        RwLockModel { trying_readers: self.trying_readers + 1, ..self }
    }

    /// A thread calls `write`.
    pub open spec fn write_begin(self) -> RwLockModel {
        RwLockModel { trying_writers: self.trying_writers + 1, ..self }
    }

    /// A trying reader acts on its observation `s`: it exchanges `s` for
    /// `s + 1`, or waits on `WRITE_LOCKED` (sleeping only if the word still
    /// holds it). The refusal at the reader limit panics the thread and is no
    /// step here.
    pub open spec fn read_try(self, s: u32) -> RwLockModel
        recommends
            self.trying_readers > 0,
            read_decision_spec(s) != ReadDecision::TooManyReaders,
    {
        match read_decision_spec(s) {
            ReadDecision::TryIncrement => match cas_result(self.state, s) {
                Ok(_) => RwLockModel {
                    state: (s + 1) as u32,
                    readers: self.readers + 1,
                    trying_readers: (self.trying_readers - 1) as nat,
                    ..self
                },
                Err(_) => self,
            },
            _ => if self.state == WRITE_LOCKED {
                RwLockModel {
                    trying_readers: (self.trying_readers - 1) as nat,
                    asleep_readers: self.asleep_readers + 1,
                    ..self
                }
            } else {
                self
            },
        }
    }

    /// A trying writer exchanges an unlocked word for `WRITE_LOCKED`.
    pub open spec fn write_try(self) -> RwLockModel
        recommends
            self.trying_writers > 0,
    {
        match cas_result(self.state, 0u32) {
            Ok(_) => RwLockModel {
                state: WRITE_LOCKED,
                writers: self.writers + 1,
                trying_writers: (self.trying_writers - 1) as nat,
                ..self
            },
            Err(_) => self,
        }
    }

    /// A writer whose exchange found `found` (not unlocked) waits on it,
    /// sleeping only if the word still holds it.
    pub open spec fn write_wait(self, found: u32) -> RwLockModel
        recommends
            self.trying_writers > 0,
            found != 0,
    {
        if self.state == found {
            RwLockModel {
                trying_writers: (self.trying_writers - 1) as nat,
                asleep_writers: self.asleep_writers + 1,
                ..self
            }
        } else {
            self
        }
    }

    /// A reader releases its read lock.
    pub open spec fn read_unlock(self) -> RwLockModel
        recommends
            self.readers > 0,
    {
        RwLockModel {
            state: (self.state - 1) as u32,
            readers: (self.readers - 1) as nat,
            pending_wake_one: if read_unlock_wakes_spec(self.state) {
                self.pending_wake_one + 1
            } else {
                self.pending_wake_one
            },
            ..self
        }
    }

    /// The writer releases the write lock.
    pub open spec fn write_unlock(self) -> RwLockModel
        recommends
            self.writers > 0,
    {
        RwLockModel {
            state: 0,
            writers: (self.writers - 1) as nat,
            pending_wake_all: self.pending_wake_all + 1,
            ..self
        }
    }

    /// A pending `wake_one` wakes one sleeper, if any: a reader when `reader`
    /// holds and one sleeps, else a writer when one sleeps, else a reader.
    pub open spec fn wake_one(self, reader: bool) -> RwLockModel
        recommends
            self.pending_wake_one > 0,
    {
        let rest = RwLockModel { pending_wake_one: (self.pending_wake_one - 1) as nat, ..self };
        if self.asleep_readers > 0 && (reader || self.asleep_writers == 0) {
            RwLockModel {
                asleep_readers: (self.asleep_readers - 1) as nat,
                trying_readers: self.trying_readers + 1,
                ..rest
            }
        } else if self.asleep_writers > 0 {
            RwLockModel {
                asleep_writers: (self.asleep_writers - 1) as nat,
                trying_writers: self.trying_writers + 1,
                ..rest
            }
        } else {
            rest
        }
    }

    /// A pending `wake_all` wakes every sleeper.
    pub open spec fn wake_all(self) -> RwLockModel
        recommends
            self.pending_wake_all > 0,
    {
        RwLockModel {
            pending_wake_all: (self.pending_wake_all - 1) as nat,
            asleep_readers: 0,
            asleep_writers: 0,
            trying_readers: self.trying_readers + self.asleep_readers,
            trying_writers: self.trying_writers + self.asleep_writers,
            ..self
        }
    }

    /// A sleeper returns from the futex wait without being woken.
    pub open spec fn spurious_wake(self, reader: bool) -> RwLockModel
        recommends
            reader ==> self.asleep_readers > 0,
            !reader ==> self.asleep_writers > 0,
    {
        if reader {
            RwLockModel {
                asleep_readers: (self.asleep_readers - 1) as nat,
                trying_readers: self.trying_readers + 1,
                ..self
            }
        } else {
            RwLockModel {
                asleep_writers: (self.asleep_writers - 1) as nat,
                trying_writers: self.trying_writers + 1,
                ..self
            }
        }
    }
}

/// One step of one thread in the reader-writer protocol.
pub enum RwLockStep {
    ReadBegin,
    WriteBegin,
    /// A trying reader acts on its observation.
    ReadTry(u32),
    WriteTry,
    /// A writer waits on the value its exchange found.
    WriteWait(u32),
    ReadUnlock,
    WriteUnlock,
    /// A pending `wake_one`, preferring a reader when the flag holds.
    WakeOne(bool),
    WakeAll,
    /// A sleeping reader (when the flag holds) or writer returns spuriously.
    SpuriousWake(bool),
}

impl RwLockModel {
    /// Whether some thread stands where it can take `step`. A reader that
    /// observed the reader limit is refused and panics: no step here.
    pub open spec fn enabled(self, step: RwLockStep) -> bool {
        match step {
            RwLockStep::ReadBegin => true,
            RwLockStep::WriteBegin => true,
            RwLockStep::ReadTry(s) => self.trying_readers > 0 && s != READER_LIMIT,
            RwLockStep::WriteTry => self.trying_writers > 0,
            RwLockStep::WriteWait(found) => self.trying_writers > 0 && found != 0,
            RwLockStep::ReadUnlock => self.readers > 0,
            RwLockStep::WriteUnlock => self.writers > 0,
            RwLockStep::WakeOne(_) => self.pending_wake_one > 0,
            RwLockStep::WakeAll => self.pending_wake_all > 0,
            RwLockStep::SpuriousWake(reader) => if reader {
                self.asleep_readers > 0
            } else {
                self.asleep_writers > 0
            },
        }
    }

    pub open spec fn step(self, step: RwLockStep) -> RwLockModel {
        match step {
            RwLockStep::ReadBegin => self.read_begin(),
            RwLockStep::WriteBegin => self.write_begin(),
            RwLockStep::ReadTry(s) => self.read_try(s),
            RwLockStep::WriteTry => self.write_try(),
            RwLockStep::WriteWait(found) => self.write_wait(found),
            RwLockStep::ReadUnlock => self.read_unlock(),
            RwLockStep::WriteUnlock => self.write_unlock(),
            RwLockStep::WakeOne(reader) => self.wake_one(reader),
            RwLockStep::WakeAll => self.wake_all(),
            RwLockStep::SpuriousWake(reader) => self.spurious_wake(reader),
        }
    }

    /// The state after taking `steps` in order, or `None` when one of them
    /// is not enabled where it is taken.
    pub open spec fn run(self, steps: Seq<RwLockStep>) -> Option<RwLockModel>
        decreases steps.len(),
    {
        if steps.len() == 0 {
            Some(self)
        } else if self.enabled(steps[0]) {
            self.step(steps[0]).run(steps.drop_first())
        } else {
            None
        }
    }
}

/// The lock starts in a state of its invariant.
pub proof fn lemma_rwlock_init()
    ensures
        RwLockModel::init().inv(),
{
}

/// Every step of every thread keeps the invariant: readers and a writer
/// never hold the lock together, at most one writer holds it, the reader
/// count never reaches `WRITE_LOCKED`, and no sleeper is left with nobody to
/// wake it (in runs where no reader is refused at the limit). A reader or
/// writer that acquires from an up-to-date observation and then releases
/// restores the word.
pub proof fn lemma_rwlock_steps_keep_inv(m: RwLockModel, s: u32, found: u32, reader: bool)
    requires
        m.inv(),
    ensures
        m.read_begin().inv(),
        m.write_begin().inv(),
        m.trying_readers > 0 && s != READER_LIMIT ==> m.read_try(s).inv(),
        m.trying_writers > 0 ==> m.write_try().inv(),
        m.trying_writers > 0 && found != 0 ==> m.write_wait(found).inv(),
        m.readers > 0 ==> m.read_unlock().inv(),
        m.writers > 0 ==> m.write_unlock().inv(),
        m.pending_wake_one > 0 ==> m.wake_one(reader).inv(),
        m.pending_wake_all > 0 ==> m.wake_all().inv(),
        (reader ==> m.asleep_readers > 0) && (!reader ==> m.asleep_writers > 0)
            ==> m.spurious_wake(reader).inv(),
        m.state == 0 && m.trying_writers > 0 ==> m.write_try().writers == 1,
        m.state == 0 && m.trying_writers > 0 ==> m.write_try().write_unlock() == (RwLockModel {
            trying_writers: (m.trying_writers - 1) as nat,
            pending_wake_all: m.pending_wake_all + 1,
            ..m
        }),
        m.writers == 0 && m.trying_readers > 0 && m.state < READER_LIMIT ==> m.read_try(
            m.state,
        ).readers == m.readers + 1,
        m.writers == 0 && m.trying_readers > 0 && m.state < READER_LIMIT ==> m.read_try(
            m.state,
        ).read_unlock().state == m.state,
{
}

proof fn lemma_rwlock_run_keeps_inv(m: RwLockModel, steps: Seq<RwLockStep>)
    requires
        m.inv(),
    ensures
        m.run(steps) matches Some(end) ==> end.inv(),
    decreases steps.len(),
{
    if steps.len() > 0 && m.enabled(steps[0]) {
        match steps[0] {
            RwLockStep::ReadTry(s) => lemma_rwlock_steps_keep_inv(m, s, 0, true),
            RwLockStep::WriteWait(found) => lemma_rwlock_steps_keep_inv(m, 0, found, true),
            RwLockStep::WakeOne(reader) => lemma_rwlock_steps_keep_inv(m, 0, 0, reader),
            RwLockStep::SpuriousWake(reader) => lemma_rwlock_steps_keep_inv(m, 0, 0, reader),
            _ => lemma_rwlock_steps_keep_inv(m, 0, 0, true),
        }
        lemma_rwlock_run_keeps_inv(m.step(steps[0]), steps.drop_first());
    }
}

/// In every run from a new lock in which no reader is refused at the
/// limit, however the threads interleave: a writer never holds the lock
/// together with readers or another writer, the word counts the readers
/// (below `WRITE_LOCKED`) or is `WRITE_LOCKED` under the writer, and while a
/// thread sleeps the lock is held or a wake is pending or a thread is awake
/// in `read` or `write`.
pub proof fn lemma_rwlock_exclusion(steps: Seq<RwLockStep>)
    ensures
        RwLockModel::init().run(steps) matches Some(end) ==> {
            &&& end.writers <= 1
            &&& end.writers == 1 ==> end.readers == 0 && end.state == WRITE_LOCKED
            &&& end.writers == 0 ==> end.state == end.readers && end.state < WRITE_LOCKED
            &&& end.asleep_readers + end.asleep_writers > 0 ==> (end.state != 0
                || end.pending_wake_one > 0 || end.pending_wake_all > 0 || end.trying_readers > 0
                || end.trying_writers > 0)
        },
{
    lemma_rwlock_init();
    lemma_rwlock_run_keeps_inv(RwLockModel::init(), steps);
}

} // verus!

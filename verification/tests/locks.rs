use atomic_locks::atomics::MemOrder;
use atomic_locks::atomics::Op;
use atomic_locks::mutex::keeps_spinning;
use atomic_locks::mutex::swap_acquires;
use atomic_locks::mutex::unlock_wakes;
use atomic_locks::mutex::Mutex;
use atomic_locks::mutex::CONTENDED;
use atomic_locks::mutex::LOCKED;
use atomic_locks::mutex::SPIN_LIMIT;
use atomic_locks::mutex::UNLOCKED;
use atomic_locks::rwlock::read_decision;
use atomic_locks::rwlock::read_unlock_wakes;
use atomic_locks::rwlock::ReadDecision;
use atomic_locks::rwlock::ReadStep;
use atomic_locks::rwlock::RwLock;
use atomic_locks::rwlock::READER_LIMIT;
use atomic_locks::rwlock::WRITE_LOCKED;
use atomic_locks::spin_lock::Lock;

#[test]
fn spin_lock_excludes_second_holder() {
    let lock = Lock::new().0;
    let (found, acquired, swap) = lock.try_lock();
    assert_eq!((found, acquired), (false, true));
    assert!(matches!(swap.operation(), Op::Swap(true)));
    assert_eq!(swap.ordering(), MemOrder::Acquire);
    let (found, acquired, _) = lock.try_lock();
    assert_eq!((found, acquired), (true, false));
    let store = lock.unlock();
    assert!(matches!(store.operation(), Op::Store(false)));
    assert_eq!(store.ordering(), MemOrder::Release);
    assert_eq!(lock.try_lock().1, true);
    lock.unlock();
}

#[test]
fn spin_lock_decision() {
    assert!(atomic_locks::spin_lock::swap_acquires(false));
    assert!(!atomic_locks::spin_lock::swap_acquires(true));
}

#[test]
fn mutex_fast_path_and_unlock() {
    let m = Mutex::new().0;
    let (outcome, exchange) = m.try_lock();
    assert_eq!(outcome, Ok(UNLOCKED));
    assert!(matches!(exchange.operation(), Op::CompareExchange(0, 1)));
    assert_eq!(m.try_lock().0, Err(LOCKED));
    // Held with no waiter: the unlock wakes nobody.
    let (found, swap, woke) = m.unlock();
    assert_eq!(found, LOCKED);
    assert!(matches!(swap.operation(), Op::Swap(0)));
    assert_eq!(swap.ordering(), MemOrder::Release);
    assert!(woke.is_none());
    assert_eq!(m.try_lock().0, Ok(UNLOCKED));
    assert_eq!(m.unlock().0, LOCKED);
}

#[test]
fn mutex_spins_the_limit_then_gives_up() {
    let m = Mutex::new().0;
    assert!(m.try_lock().0.is_ok());
    let (spins, outcome, _, exchange) = m.spin_then_try();
    assert_eq!((spins, outcome), (SPIN_LIMIT, Err(LOCKED)));
    assert!(matches!(exchange.operation(), Op::CompareExchange(0, 1)));
    assert_eq!(m.unlock().0, LOCKED);
    let (spins, outcome, _, _) = m.spin_then_try();
    assert_eq!((spins, outcome), (0, Ok(UNLOCKED)));
    assert_eq!(m.unlock().0, LOCKED);
}

#[test]
fn mutex_contended_acquire_wakes_on_unlock() {
    let m = Mutex::new().0;
    // An unlocked mutex is acquired by the swap, which leaves it contended.
    let (found, acquired, swap, waited) = m.contended_step();
    assert_eq!((found, acquired), (UNLOCKED, true));
    assert!(matches!(swap.operation(), Op::Swap(2)));
    assert!(waited.is_none());
    assert_eq!(m.try_lock().0, Err(CONTENDED));
    // So its unlock wakes a (possible) waiter.
    let (found, _, woke) = m.unlock();
    assert_eq!(found, CONTENDED);
    assert!(!woke.unwrap().woke_all());
    assert_eq!(m.try_lock().0, Ok(UNLOCKED));
    assert_eq!(m.unlock().0, LOCKED);
}

#[test]
fn mutex_decisions() {
    assert_eq!((UNLOCKED, LOCKED, CONTENDED), (0, 1, 2));
    assert!(keeps_spinning(LOCKED, 0));
    assert!(keeps_spinning(LOCKED, SPIN_LIMIT - 1));
    assert!(!keeps_spinning(LOCKED, SPIN_LIMIT));
    assert!(!keeps_spinning(CONTENDED, 0));
    assert!(!keeps_spinning(UNLOCKED, 0));
    assert!(swap_acquires(UNLOCKED));
    assert!(!swap_acquires(LOCKED));
    assert!(!swap_acquires(CONTENDED));
    assert!(unlock_wakes(CONTENDED));
    assert!(!unlock_wakes(LOCKED));
}

/// Runs `read` to its end, as the caller does.
fn read(lock: &RwLock) {
    let mut s = lock.observe().0;
    loop {
        match lock.read_step(s).0 {
            ReadStep::Acquired => return,
            ReadStep::TooManyReaders => panic!("too many readers"),
            ReadStep::Retry(next) => s = next,
        }
    }
}

#[test]
fn rwlock_readers_count_and_last_wakes() {
    let lock = RwLock::new().0;
    assert_eq!(lock.observe().0, 0);
    read(&lock);
    read(&lock);
    assert_eq!(lock.observe().0, 2);
    let (found, decrement, woke) = lock.read_unlock();
    assert_eq!(found, 2);
    assert!(matches!(decrement.operation(), Op::FetchSub(1)));
    assert!(woke.is_none());
    let (found, _, woke) = lock.read_unlock();
    assert_eq!(found, 1);
    assert!(!woke.unwrap().woke_all());
    assert_eq!(lock.observe().0, 0);
}

#[test]
fn rwlock_writer_excludes_and_releases() {
    let lock = RwLock::new().0;
    let (outcome, exchange, waited) = lock.write_step();
    assert_eq!(outcome, Ok(0));
    assert!(matches!(exchange.operation(), Op::CompareExchange(0, u32::MAX)));
    assert!(waited.is_none());
    assert_eq!(lock.observe().0, WRITE_LOCKED);
    let (store, woke) = lock.write_unlock();
    assert!(matches!(store.operation(), Op::Store(0)));
    assert!(woke.woke_all());
    assert_eq!(lock.observe().0, 0);
    read(&lock);
    assert_eq!(lock.read_unlock().0, 1);
    assert_eq!(lock.write_step().0, Ok(0));
    lock.write_unlock();
}

#[test]
fn rwlock_refuses_at_reader_limit() {
    let lock = RwLock::new().0;
    let (step, round) = lock.read_step(READER_LIMIT);
    assert!(matches!(step, ReadStep::TooManyReaders));
    assert!(round.exchange.is_none() && round.wait.is_none() && round.reload.is_none());
    assert_eq!(lock.observe().0, 0);
}

#[test]
fn rwlock_stale_observation_retries() {
    let lock = RwLock::new().0;
    let (step, round) = lock.read_step(5);
    match step {
        ReadStep::Retry(next) => assert_eq!(next, 0),
        _ => panic!("the exchange of a stale count must fail"),
    }
    let exchange = round.exchange.unwrap();
    assert!(matches!(exchange.operation(), Op::CompareExchangeWeak(5, 6)));
    assert_eq!(*exchange.result(), Err(0));
    assert!(round.wait.is_none() && round.reload.is_none());
}

#[test]
fn rwlock_decisions() {
    assert_eq!(WRITE_LOCKED, u32::MAX);
    assert_eq!(READER_LIMIT, u32::MAX - 1);
    assert!(matches!(read_decision(0), ReadDecision::TryIncrement));
    assert!(matches!(read_decision(READER_LIMIT - 1), ReadDecision::TryIncrement));
    assert!(matches!(read_decision(READER_LIMIT), ReadDecision::TooManyReaders));
    assert!(matches!(read_decision(WRITE_LOCKED), ReadDecision::Wait));
    assert!(read_unlock_wakes(1));
    assert!(!read_unlock_wakes(2));
}

#[test]
fn new_words_are_made_unlocked() {
    let (_lock, made) = Lock::new();
    assert_eq!(*made.initial(), false);
    let (m, made) = Mutex::new();
    assert_eq!(*made.initial(), UNLOCKED);
    assert_eq!(m.try_lock().0, Ok(UNLOCKED));
    let (_rw, made) = RwLock::new();
    assert_eq!(*made.initial(), 0);
}

use atomic_locks::arc::decrement_was_last;
use atomic_locks::arc::increment_overflows;
use atomic_locks::arc::upgrade_decision;
use atomic_locks::arc::ArcCounts;
use atomic_locks::arc::UpgradeDecision;
use atomic_locks::arc::UpgradeStep;
use atomic_locks::arc::COUNT_LIMIT;
use atomic_locks::atomics::Fenced;
use atomic_locks::atomics::MemOrder;
use atomic_locks::atomics::Op;

/// The value an operation found and the decision on it.
fn found_and_decision<R>(r: (usize, bool, R)) -> (usize, bool) {
    (r.0, r.1)
}

/// The same, of a step that may also fence.
fn found_and_last<R>(r: (usize, bool, R, Option<Fenced>)) -> (usize, bool) {
    assert_eq!(r.3.is_some(), r.1);
    if let Some(fenced) = r.3 {
        assert_eq!(fenced.ordering(), MemOrder::Acquire);
    }
    (r.0, r.1)
}

/// Runs `upgrade` to its end, as the weak handle's caller does.
fn upgrade(counts: &ArcCounts) -> bool {
    let mut n = counts.observe_strong().0;
    loop {
        match counts.upgrade_step(n).0 {
            UpgradeStep::Gone => return false,
            UpgradeStep::Overflow => panic!("overflow"),
            UpgradeStep::Upgraded(must_abort) => {
                assert!(!must_abort);
                return true;
            }
            UpgradeStep::Retry(found) => n = found,
        }
    }
}

/// The handles of the original test, one thread at a time: a strong
/// handle, two weak ones, upgrades while the strong handle lives and after
/// it is gone.
#[test]
fn test() {
    let counts = ArcCounts::new().0;
    // y and z: two downgrades of x.
    assert_eq!(found_and_decision(counts.clone_weak()), (1, false));
    assert_eq!(found_and_decision(counts.clone_weak()), (2, false));
    // y upgrades, and the new strong handle is dropped, then y itself.
    assert!(upgrade(&counts));
    assert_eq!(found_and_last(counts.drop_strong()), (2, false));
    assert_eq!(found_and_last(counts.drop_weak()), (4, false));
    assert_eq!(found_and_last(counts.drop_weak()), (3, false));
    // z upgrades while x lives; the temporary strong handle goes at once.
    assert!(upgrade(&counts));
    assert_eq!(found_and_last(counts.drop_strong()), (2, false));
    assert_eq!(found_and_last(counts.drop_weak()), (3, false));
    // Dropping x drops the value (the one drop the test counts)...
    assert_eq!(found_and_last(counts.drop_strong()), (1, true));
    // ... but not the allocation: z still holds it.
    assert_eq!(found_and_last(counts.drop_weak()), (2, false));
    // z cannot upgrade any more.
    assert_eq!(counts.observe_strong().0, 0);
    assert!(!upgrade(&counts));
    // Dropping z frees the allocation.
    assert_eq!(found_and_last(counts.drop_weak()), (1, true));
}

#[test]
fn fresh_counts_are_unique() {
    let counts = ArcCounts::new().0;
    assert_eq!(found_and_last(counts.is_unique()), (1, true));
    assert_eq!(found_and_decision(counts.clone_weak()), (1, false));
    assert_eq!(found_and_decision(counts.clone_strong()), (1, false));
    assert_eq!(found_and_last(counts.is_unique()), (2, false));
    assert_eq!(found_and_last(counts.drop_strong()), (2, false));
    assert_eq!(found_and_last(counts.drop_weak()), (2, false));
    assert_eq!(found_and_last(counts.is_unique()), (1, true));
}

#[test]
fn cloned_weak_then_dropped_restores_counts() {
    let counts = ArcCounts::new().0;
    assert_eq!(found_and_decision(counts.clone_weak()), (1, false));
    assert_eq!(found_and_last(counts.drop_weak()), (2, false));
    assert_eq!(found_and_last(counts.drop_strong()), (1, true));
    assert_eq!(found_and_last(counts.drop_weak()), (1, true));
}

#[test]
fn upgrade_from_stale_observation_retries() {
    let counts = ArcCounts::new().0;
    let (step, round) = counts.upgrade_step(5);
    match step {
        UpgradeStep::Retry(found) => assert_eq!(found, 1),
        _ => panic!("the exchange of a stale count must fail"),
    }
    let exchange = round.exchange.unwrap();
    assert!(matches!(exchange.operation(), Op::CompareExchangeWeak(5, 6)));
    assert_eq!(*exchange.result(), Err(1));
    assert!(round.weak_increment.is_none());
    let (step, round) = counts.upgrade_step(0);
    assert!(matches!(step, UpgradeStep::Gone));
    assert!(round.exchange.is_none());
    assert!(matches!(counts.upgrade_step(usize::MAX).0, UpgradeStep::Overflow));
}

#[test]
fn count_decisions() {
    assert!(!increment_overflows(COUNT_LIMIT));
    assert!(increment_overflows(COUNT_LIMIT + 1));
    assert!(!increment_overflows(0));
    assert_eq!(COUNT_LIMIT, usize::MAX / 2);
    assert!(decrement_was_last(1));
    assert!(!decrement_was_last(2));
    assert!(!decrement_was_last(0));
    assert!(matches!(upgrade_decision(0), UpgradeDecision::Gone));
    assert!(matches!(upgrade_decision(usize::MAX), UpgradeDecision::Overflow));
    assert!(matches!(upgrade_decision(7), UpgradeDecision::TryIncrement));
}

#[test]
fn upgrade_round_counts_both() {
    let counts = ArcCounts::new().0;
    let (step, round) = counts.upgrade_step(1);
    assert!(matches!(step, UpgradeStep::Upgraded(false)));
    let exchange = round.exchange.unwrap();
    assert!(matches!(exchange.operation(), Op::CompareExchangeWeak(1, 2)));
    assert_eq!(*exchange.result(), Ok(1));
    let increment = round.weak_increment.unwrap();
    assert!(matches!(increment.operation(), Op::FetchAdd(1)));
    assert_eq!(*increment.result(), Ok(1));
    let (prev, last, decrement, fenced) = counts.drop_strong();
    assert!(fenced.is_none());
    assert_eq!(decrement.ordering(), MemOrder::Release);
    assert_eq!((prev, last), (2, false));
    assert!(matches!(decrement.operation(), Op::FetchSub(1)));
}

#[test]
fn new_counts_are_made_one() {
    let (counts, strong, alloc) = ArcCounts::new();
    assert_eq!(*strong.initial(), 1);
    assert_eq!(*alloc.initial(), 1);
    assert_eq!(counts.observe_strong().0, 1);
}

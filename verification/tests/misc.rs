use atomic_locks::calc::some_calculation;
use atomic_locks::channel::Channel;
use atomic_locks::key::get_key;
use atomic_locks::atomics::Op;
use atomic_locks::key::key_after_exchange;
use atomic_locks::key::key_after_load;
use atomic_locks::key::KEY_VALUE;
use std::sync::atomic::AtomicU32;

#[test]
fn calculation_is_ten_times() {
    assert_eq!(some_calculation(0), 0);
    assert_eq!(some_calculation(3), 30);
    assert_eq!(some_calculation(9), 90);
}

#[test]
fn key_is_installed_once() {
    let key = AtomicU32::new(0);
    let (pair, round) = get_key(&key);
    assert_eq!(pair, (KEY_VALUE, true));
    assert_eq!(*round.load.result(), Ok(0));
    let exchange = round.exchange.unwrap();
    assert!(matches!(exchange.operation(), Op::CompareExchange(0, 1234)));
    assert_eq!(*exchange.result(), Ok(0));
    let (pair, round) = get_key(&key);
    assert_eq!(pair, (KEY_VALUE, false));
    assert!(round.exchange.is_none());
    assert_eq!(get_key(&key).0, (1234, false));
}

#[test]
fn key_set_elsewhere_is_kept() {
    let key = AtomicU32::new(77);
    let (pair, round) = get_key(&key);
    assert_eq!(pair, (77, false));
    assert!(matches!(round.load.operation(), Op::Load));
    assert!(round.exchange.is_none());
}

#[test]
fn key_load_decision() {
    assert_eq!(key_after_load(0), None);
    assert_eq!(key_after_load(9), Some((9, false)));
}

#[test]
fn key_exchange_decision() {
    assert_eq!(key_after_exchange(Ok(0)), (KEY_VALUE, true));
    assert_eq!(key_after_exchange(Err(5)), (5, false));
}

#[test]
fn channel_send_then_receive() {
    let mut channel = Channel::new().0;
    {
        let (sender, receiver, made) = channel.split();
        assert_eq!(*made.initial(), false);
        assert!(!receiver.is_ready().0);
        let store = sender.send();
        assert!(matches!(store.operation(), Op::Store(true)));
        assert!(receiver.is_ready().0);
        let (was_ready, swap) = receiver.receive();
        assert!(was_ready);
        assert!(matches!(swap.operation(), Op::Swap(false)));
    }
    assert!(!channel.message_pending().0);
}

#[test]
fn channel_unreceived_message_is_pending() {
    let mut channel = Channel::new().0;
    {
        let (sender, _receiver, _) = channel.split();
        sender.send();
    }
    assert!(channel.message_pending().0);
    // Splitting again resets the channel.
    {
        let (_sender, receiver, _) = channel.split();
        assert!(!receiver.is_ready().0);
        assert!(!receiver.receive().0);
    }
    assert!(!channel.message_pending().0);
}

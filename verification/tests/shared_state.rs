use std::sync::mpsc;

use android_event_loop::flag::{raised_by, FlagReader, RedrawRequester, SharedFlag};
use android_event_loop::queue::{hold_back, EventLoopClosed, EventLoopProxy, PeekableReceiver};

#[test]
fn new_flag_is_lowered() {
    let flag = SharedFlag::new();
    assert!(!flag.get_and_reset());
}

#[test]
fn only_the_first_raise_reports_a_change() {
    let flag = SharedFlag::new();
    let setter = flag.setter();
    assert!(setter.set());
    assert!(!setter.set());
    assert!(!setter.clone().set());
    assert!(flag.get_and_reset());
    assert!(!flag.get_and_reset());
    assert!(setter.set());
}

#[test]
fn outcome_of_the_exchange_decides() {
    assert!(raised_by(Ok(false)));
    assert!(!raised_by(Err(true)));
}

#[test]
fn one_wake_for_many_requests() {
    let flag = SharedFlag::new();
    let first = RedrawRequester::new(&flag);
    let second = first.clone();
    let wakes: Vec<bool> = vec![
        first.request_redraw(),
        second.request_redraw(),
        first.request_redraw(),
    ];
    assert_eq!(wakes, vec![true, false, false]);
    assert!(flag.get_and_reset());
    assert!(second.request_redraw());
}

#[test]
fn every_request_is_reported_once() {
    let flag = SharedFlag::new();
    let (first, second) = (flag.setter(), flag.setter());
    let mut reader = FlagReader::new(flag);
    let mut changed = vec![];
    let mut found = vec![reader.look()];
    for round in 0..4 {
        changed.push(first.set());
        if round == 1 {
            changed.push(second.set());
        }
        if round != 2 {
            found.push(reader.look());
        }
    }
    found.push(reader.look());
    assert_eq!(changed, vec![true, true, false, true, false]);
    assert_eq!(found, vec![false, true, true, true, false]);
    assert!(second.set());
    assert!(reader.look());
}

#[test]
fn looking_does_not_lose_the_value() {
    let (sender, receiver) = mpsc::channel();
    let mut peekable = PeekableReceiver::from_recv(receiver);
    assert!(!peekable.has_incoming());
    sender.send(1).unwrap();
    sender.send(2).unwrap();
    assert!(peekable.has_incoming());
    assert!(peekable.has_incoming());
    assert_eq!(peekable.try_recv(), Ok(1));
    assert_eq!(peekable.try_recv(), Ok(2));
    assert_eq!(peekable.try_recv(), Err(mpsc::TryRecvError::Empty));
    assert!(!peekable.has_incoming());
}

#[test]
fn values_come_in_order_without_looking() {
    let (sender, receiver) = mpsc::channel();
    let mut peekable = PeekableReceiver::from_recv(receiver);
    for value in 0..5 {
        sender.send(value).unwrap();
    }
    for value in 0..5 {
        assert_eq!(peekable.try_recv(), Ok(value));
    }
}

#[test]
fn disconnected_channel_has_nothing_incoming() {
    let (sender, receiver) = mpsc::channel::<u8>();
    let mut peekable = PeekableReceiver::from_recv(receiver);
    drop(sender);
    assert!(!peekable.has_incoming());
    assert_eq!(peekable.try_recv(), Err(mpsc::TryRecvError::Disconnected));
}

#[test]
fn value_held_back_outlives_the_senders() {
    let (sender, receiver) = mpsc::channel();
    let mut peekable = PeekableReceiver::from_recv(receiver);
    sender.send('a').unwrap();
    assert!(peekable.has_incoming());
    drop(sender);
    assert!(peekable.has_incoming());
    assert_eq!(peekable.try_recv(), Ok('a'));
    assert_eq!(peekable.try_recv(), Err(mpsc::TryRecvError::Disconnected));
}

#[test]
fn outcome_of_a_look_is_held_back() {
    assert_eq!(hold_back::<u8>(Err(mpsc::TryRecvError::Empty)), None);
    assert_eq!(hold_back::<u8>(Err(mpsc::TryRecvError::Disconnected)), None);
    assert_eq!(hold_back(Ok(7)), Some(7));
}

/// What requests return between sends, with looks in between or without.
fn requested(look: bool) -> Vec<Result<u8, mpsc::TryRecvError>> {
    let (sender, receiver) = mpsc::channel();
    let mut peekable = PeekableReceiver::from_recv(receiver);
    let mut results = vec![];
    for round in 0..5 {
        if round != 3 {
            sender.send(round).unwrap();
        }
        if look {
            assert!(peekable.has_incoming());
            assert!(peekable.has_incoming());
        }
        if round > 0 {
            results.push(peekable.try_recv());
        }
    }
    for _ in 0..2 {
        if look {
            assert!(!peekable.has_incoming());
        }
        results.push(peekable.try_recv());
    }
    results
}

#[test]
fn looks_change_no_request() {
    let empty = Err(mpsc::TryRecvError::Empty);
    assert_eq!(requested(false), vec![Ok(0), Ok(1), Ok(2), Ok(4), empty, empty]);
    assert_eq!(requested(true), requested(false));
}

#[test]
fn failed_request_takes_nothing() {
    let (sender, receiver) = mpsc::channel();
    let mut peekable = PeekableReceiver::from_recv(receiver);
    assert_eq!(peekable.try_recv(), Err(mpsc::TryRecvError::Empty));
    sender.send('x').unwrap();
    assert_eq!(peekable.try_recv(), Ok('x'));
}

#[test]
fn proxy_and_its_clone_send_to_the_same_queue() {
    let (sender, receiver) = mpsc::channel();
    let proxy = EventLoopProxy::new(sender);
    let other = proxy.clone();
    assert_eq!(proxy.send_event("one"), Ok(()));
    assert_eq!(other.send_event("two"), Ok(()));
    assert_eq!(receiver.recv(), Ok("one"));
    assert_eq!(receiver.recv(), Ok("two"));
}

#[test]
fn event_comes_back_when_the_loop_is_gone() {
    let (sender, receiver) = mpsc::channel();
    let proxy = EventLoopProxy::new(sender);
    drop(receiver);
    assert_eq!(proxy.send_event(String::from("lost")), Err(EventLoopClosed(String::from("lost"))));
}

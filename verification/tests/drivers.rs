//! Timers, sleeping tasks and I/O events.

use loony_rs_runtime::runtime::io::{Event, Events, Interest, IoDriver};
use loony_rs_runtime::runtime::timer::TimeDriver;
use loony_rs_runtime::task::Poll;
use loony_rs_runtime::time::Sleep;
use slab::Slab;

#[test]
fn timers_wake_in_the_order_of_their_deadlines() {
    let mut driver = TimeDriver::new();
    assert_eq!(driver.next_deadline(), None);
    driver.schedule(30, 'c');
    driver.schedule(10, 'a');
    driver.schedule(20, 'b');
    driver.schedule(10, 'd');
    assert_eq!(driver.next_deadline(), Some(10));
    assert!(driver.process(9).is_empty());
    assert_eq!(driver.process(20), vec!['a', 'd', 'b']);
    assert_eq!(driver.next_deadline(), Some(30));
    assert!(driver.process(29).is_empty());
    assert_eq!(driver.process(30), vec!['c']);
    assert_eq!(driver.next_deadline(), None);
    assert!(driver.process(1000).is_empty());
}

#[test]
fn scheduling_loses_no_timer() {
    let mut driver = TimeDriver::new();
    for i in 0..50u64 {
        driver.schedule(u128::from((i * 37) % 11), i);
    }
    let mut woken = driver.process(10);
    assert_eq!(woken.len(), 50);
    let deadlines: Vec<u64> = woken.iter().map(|i| (i * 37) % 11).collect();
    let mut sorted = deadlines.clone();
    sorted.sort();
    assert_eq!(deadlines, sorted);
    woken.sort();
    assert_eq!(woken, (0..50u64).collect::<Vec<u64>>());
}

#[test]
fn sleep_is_ready_at_its_deadline() {
    let mut driver = loony_rs_runtime::time::TimeDriver::new();
    driver.waker = Some(9);
    let mut sleep = driver.sleep(100, 25);
    assert_eq!(sleep, Sleep { deadline: 125, registered: false });
    assert_eq!(sleep.poll(&mut driver, 110, 1), (Poll::Pending, Some(9)));
    assert_eq!(driver.waker, None);
    assert_eq!(sleep.poll(&mut driver, 120, 1), (Poll::Pending, None));
    assert_eq!(driver.timers.next_deadline(), Some(125));
    assert_eq!(driver.timers.process(125), vec![1]);
    assert_eq!(driver.timers.next_deadline(), None);
    assert_eq!(sleep.poll(&mut driver, 125, 1), (Poll::Ready(()), None));
}

#[test]
fn sleep_that_is_over_leaves_no_timer() {
    let mut driver = loony_rs_runtime::time::TimeDriver::new();
    driver.waker = Some(9);
    let mut sleep = driver.sleep(100, 0);
    assert_eq!(sleep.poll(&mut driver, 100, 1), (Poll::Ready(()), None));
    assert_eq!(driver.timers.next_deadline(), None);
    assert_eq!(driver.waker, Some(9));
}

#[test]
fn interests() {
    assert!(Interest::Readable.is_readable());
    assert!(!Interest::Readable.is_writable());
    assert!(!Interest::Writable.is_readable());
    assert!(Interest::Writable.is_writable());
    assert!(Interest::Both.is_readable());
    assert!(Interest::Both.is_writable());
}

#[test]
fn events_are_walked_in_order() {
    let mut events = Events::with_capacity(1024);
    assert_eq!(events.capacity, 1024);
    assert!(events.inner.is_empty());
    events.push(4);
    events.push(2);
    assert_eq!(events.capacity, 1024);
    let mut iter = events.into_iter();
    assert_eq!(iter.next(), Some(Event { token: 4 }));
    assert_eq!(iter.next().map(|event| event.token()), Some(2));
    assert_eq!(iter.next(), None);
    assert_eq!(iter.next(), None);
}

#[test]
fn events_wake_the_wakers_of_their_tokens() {
    let mut wakers = Slab::new();
    let first = wakers.insert(70);
    let second = wakers.insert(71);
    let third = wakers.insert(72);
    wakers.remove(second);
    let driver = IoDriver::with_wakers(wakers);
    let mut events = Events::with_capacity(8);
    events.push(third);
    events.push(second);
    events.push(first);
    events.push(1000);
    events.push(third);
    assert_eq!(driver.poll(&events), vec![72, 70, 72]);
}

#[test]
fn new_driver_wakes_nobody() {
    let driver = IoDriver::new();
    let mut events = Events::with_capacity(8);
    events.push(0);
    events.push(1);
    assert!(driver.poll(&events).is_empty());
}

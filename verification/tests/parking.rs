//! Parkers and the wakers that unpark them.

use loony_rs_runtime::runtime::park::{
    begin_park, end_wait, notify, Park, ParkAttempt, ParkProgress, ParkState, ParkStep, ParkThread,
    Parker, SleepPark, ThreadPark, UnparkStep, WakeReason, YieldPark, YEAR,
};
use loony_rs_runtime::runtime::scheduler::current_thread::ThreadParker;
use loony_rs_runtime::runtime::scheduler::multi_thread::BlockOnParker;
use loony_rs_runtime::runtime::timer::TimeDriver;
use loony_rs_runtime::task::waker::{Waker, WakerVtable};

#[test]
fn thread_park_waits_for_a_year() {
    let mut parker = ThreadPark::new(1);
    assert_eq!(YEAR, 365 * 24 * 60 * 60 * 1_000_000_000);
    assert_eq!(parker.park(1), ParkStep::Wait(Some(YEAR)));
    assert_eq!(parker.state, ParkState::Parked);
    assert_eq!(parker.park_timeout(1, 5, 0), ParkStep::Retry);
    assert_eq!(parker.after_wait(), WakeReason::TimedOut);
    assert_eq!(parker.state, ParkState::Empty);
}

#[test]
fn unpark_before_park_is_not_lost() {
    let mut parker = ThreadPark::new(1);
    assert_eq!(parker.unpark(), UnparkStep::Nothing);
    assert_eq!(parker.unpark(), UnparkStep::Nothing);
    assert_eq!(parker.wait(Some(5)), ParkStep::Return);
    assert_eq!(parker.wait(Some(5)), ParkStep::Wait(Some(5)));
}

#[test]
fn unpark_during_a_wait_is_told() {
    let mut parker = ThreadPark::new(1);
    parker.park(1);
    assert_eq!(parker.unpark(), UnparkStep::Notify);
    assert_eq!(parker.unpark(), UnparkStep::Nothing);
    assert_eq!(parker.after_wait(), WakeReason::Notified);
    assert_eq!(parker.state, ParkState::Empty);
}

#[test]
fn exchanges_of_the_park_state() {
    let take = ParkAttempt { expected: ParkState::Notified, new: ParkState::Empty };
    let announce = ParkAttempt { expected: ParkState::Empty, new: ParkState::Parked };
    assert_eq!(ParkState::Notified.park_attempt(), take);
    assert_eq!(ParkState::Empty.park_attempt(), announce);
    assert_eq!(ParkState::Parked.park_attempt(), announce);

    let mut state = ParkState::Empty;
    assert_eq!(state.compare_exchange(take), Err(ParkState::Empty));
    assert_eq!(state, ParkState::Empty);
    assert_eq!(take.settle(Err(ParkState::Empty), None), ParkProgress::Again(ParkState::Empty));
    assert_eq!(state.compare_exchange(announce), Ok(ParkState::Empty));
    assert_eq!(state, ParkState::Parked);
    assert_eq!(
        announce.settle(Ok(ParkState::Empty), Some(3)),
        ParkProgress::Done(ParkStep::Wait(Some(3)))
    );
    assert_eq!(
        take.settle(Ok(ParkState::Notified), Some(3)),
        ParkProgress::Done(ParkStep::Return)
    );
}

#[test]
fn steps_of_the_park_state() {
    let mut state = ParkState::Empty;
    assert_eq!(begin_park(&mut state, None), ParkStep::Wait(None));
    assert_eq!(notify(&mut state), UnparkStep::Notify);
    assert_eq!(end_wait(&mut state), WakeReason::Notified);
    assert_eq!(state, ParkState::Empty);
}

#[test]
fn thread_waker_unparks() {
    let mut parker = ThreadPark::new(8);
    let waker = parker.waker();
    assert_eq!(waker.into_waker(), Waker { data: 8, vtable: WakerVtable::ThreadPark });
    assert_eq!(waker.wake_by_ref(&mut parker), UnparkStep::Nothing);
    assert_eq!(parker.park(1), ParkStep::Return);
    parker.park(1);
    assert_eq!(waker.wake(&mut parker), UnparkStep::Notify);
}

#[test]
fn park_thread_parks_its_parker() {
    let mut parker = ParkThread::new(2);
    assert_eq!(parker.waker(), Waker { data: 2, vtable: WakerVtable::ThreadPark });
    assert_eq!(parker.unpark(), UnparkStep::Nothing);
    assert_eq!(parker.park(), ParkStep::Return);
    assert_eq!(parker.park_timeout(6), ParkStep::Wait(Some(6)));
}

#[test]
fn sleep_park_keeps_one_notification() {
    let mut parker = SleepPark::new(3);
    assert_eq!(parker.unpark(), UnparkStep::Nothing);
    assert_eq!(parker.park(20), ParkStep::Return);
    assert_eq!(parker.park(20), ParkStep::ParkThread);
    assert_eq!(parker.park_timeout(21, 4, 0), ParkStep::ParkThreadTimeout(4));
    assert_eq!(parker.unpark(), UnparkStep::Unpark(21));
    assert_eq!(parker.unpark(), UnparkStep::Nothing);
    assert_eq!(parker.park(21), ParkStep::Return);
    assert_eq!(parker.park(20), ParkStep::ParkThread);
    let waker = parker.waker();
    assert_eq!(waker.into_waker(), Waker { data: 3, vtable: WakerVtable::SleepPark });
    assert_eq!(waker.wake_by_ref(&mut parker), UnparkStep::Unpark(20));
    assert_eq!(waker.wake(&mut parker), UnparkStep::Nothing);
    assert_eq!(parker.park_timeout(20, 4, 0), ParkStep::Return);
}

#[test]
fn yield_park_stays_until_unparked() {
    let mut parker = YieldPark::new(4);
    assert_eq!(parker.park(1), ParkStep::Return);
    parker.should_park = true;
    assert_eq!(parker.park(1), ParkStep::Yield);
    assert_eq!(parker.park_timeout(1, 10, 9), ParkStep::Yield);
    assert_eq!(parker.park_timeout(1, 10, 10), ParkStep::Return);
    let waker = parker.waker();
    assert_eq!(waker.into_waker(), Waker { data: 4, vtable: WakerVtable::YieldPark });
    assert_eq!(waker.wake_by_ref(&mut parker), UnparkStep::Nothing);
    assert_eq!(parker.park(1), ParkStep::Return);
    parker.should_park = true;
    assert_eq!(waker.wake(&mut parker), UnparkStep::Nothing);
    assert_eq!(parker.park_timeout(1, 10, 0), ParkStep::Return);
}

#[test]
fn parker_without_drivers() {
    let mut parker: Parker<u64> = Parker::new(5);
    assert!(parker.io_driver().is_none());
    assert!(parker.time_driver().is_none());
    assert_eq!(parker.park(100), ParkStep::Wait(Some(YEAR)));
    assert_eq!(parker.unpark(), UnparkStep::Notify);
    assert_eq!(parker.park_timeout(Some(7), 100), ParkStep::Return);
    assert_eq!(parker.park_timeout(Some(7), 100), ParkStep::Wait(Some(7)));
}

/// The time that a parker with one timer waits.
fn waits(deadline: u128, now: u128, timeout: Option<u128>) -> ParkStep {
    let mut parker: Parker<u64> = Parker::new_with_io(6);
    assert!(parker.io_driver().is_some());
    let mut timers = TimeDriver::new();
    timers.schedule(deadline, 1);
    parker.time_driver = Some(timers);
    parker.park_timeout(timeout, now)
}

#[test]
fn parker_wakes_for_the_next_timer() {
    assert_eq!(waits(150, 100, None), ParkStep::Wait(Some(50)));
    assert_eq!(waits(150, 100, Some(60)), ParkStep::Wait(Some(50)));
    assert_eq!(waits(150, 100, Some(50)), ParkStep::Wait(Some(50)));
    assert_eq!(waits(150, 100, Some(40)), ParkStep::Wait(Some(40)));
    assert_eq!(waits(100, 100, Some(40)), ParkStep::Wait(Some(40)));
    assert_eq!(waits(90, 100, None), ParkStep::Wait(Some(YEAR)));
}

#[test]
fn thread_parker_of_a_scheduler() {
    let mut parker = ThreadParker::new(7);
    assert_eq!(parker.waker(), Waker { data: 7, vtable: WakerVtable::ThreadParker });
    assert_eq!(parker.park(), ParkStep::Wait(None));
    assert_eq!(parker.after_wait(true), WakeReason::TimedOut);
    assert_eq!(parker.park_timeout(Some(9)), ParkStep::Wait(Some(9)));
    assert_eq!(parker.unpark(), UnparkStep::Notify);
    assert_eq!(parker.after_wait(true), WakeReason::Notified);
    assert_eq!(parker.state, ParkState::Empty);
    parker.park();
    assert_eq!(parker.after_wait(false), WakeReason::TimedOut);
    let waker = parker.waker();
    assert_eq!(parker.wake(&waker), UnparkStep::Nothing);
    assert_eq!(parker.park(), ParkStep::Return);
    parker.park();
    assert_eq!(parker.wake(&waker), UnparkStep::Notify);
}

#[test]
fn block_on_parker_keeps_one_notification() {
    let mut parker = BlockOnParker::new(8);
    assert_eq!(parker.waker(), Waker { data: 8, vtable: WakerVtable::BlockOn });
    assert_eq!(parker.park(), ParkStep::ParkThread);
    assert!(parker.unpark());
    assert!(!parker.unpark());
    assert_eq!(parker.park(), ParkStep::Return);
    assert_eq!(parker.park(), ParkStep::ParkThread);
    let waker = parker.waker();
    assert!(parker.wake(&waker));
    assert!(!parker.wake(&waker));
    assert_eq!(parker.park(), ParkStep::Return);
}

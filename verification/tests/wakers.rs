//! Wakers of tasks, and what waking a task does.

use loony_rs_runtime::runtime::handle::{wake_and_schedule, Woken};
use loony_rs_runtime::runtime::scheduler::multi_thread::{CurrentContext, Notice, Shared};
use loony_rs_runtime::task::raw::{RunStep, Schedule, VTableFor};
use loony_rs_runtime::task::state::TaskState;
use loony_rs_runtime::task::waker::{
    clone_waker, drop_waker, noop_waker, release_task, retain_task, wake_by_ref_waker, wake_task,
    wake_transition, wake_waker, waker_from_task, CallbackWaker, ManualWaker, Waker, WakerVtable,
};
use loony_rs_runtime::task::{create_task, create_task_with_shared, Poll, Tasks};
use std::sync::atomic::{AtomicUsize, Ordering};
use std::sync::Arc;

fn transition(bits: usize) -> Option<usize> {
    wake_transition(TaskState::from_bits(bits)).map(|state| state.bits())
}

#[test]
fn only_idle_tasks_are_woken() {
    assert_eq!(transition(0x3_0000), Some(0x3_0001));
    assert_eq!(transition(0x3_0008), Some(0x3_0009));
    assert_eq!(transition(0x3_0001), None);
    assert_eq!(transition(0x3_0002), None);
    assert_eq!(transition(0x3_0003), None);
    assert_eq!(transition(0x3_0004), None);
    assert_eq!(transition(0x3_0007), None);
}

#[test]
fn task_is_scheduled_by_one_wake() {
    let mut tasks: Tasks<u8, u32, u64> = Tasks::new();
    let (task, _handle) = create_task(&mut tasks, 7);
    assert_eq!(wake_task(&mut tasks, task.header, Some(2)), Some(Schedule::Push(2)));
    assert_eq!(task.state(&tasks).bits(), 0x1_0001);
    assert_eq!(wake_task(&mut tasks, task.header, Some(2)), None);
}

#[test]
fn pending_task_is_scheduled_again() {
    let mut tasks: Tasks<u8, u32, u64> = Tasks::new();
    let (task, _handle) = create_task(&mut tasks, 7);
    for _ in 0..3 {
        assert_eq!(wake_task(&mut tasks, task.header, Some(2)), Some(Schedule::Push(2)));
        assert!(matches!(task.run(&mut tasks), RunStep::Poll(7)));
        assert!(task.state(&tasks).is_running());
        let end = task.finish_run(&mut tasks, Some(2), 7, Poll::Pending);
        assert_eq!(end.schedule, None);
        assert_eq!(task.state(&tasks).bits(), 0x1_0000);
    }
}

#[test]
fn wake_during_a_poll_is_not_lost() {
    let mut tasks: Tasks<u8, u32, u64> = Tasks::new();
    let (task, _handle) = create_task(&mut tasks, 7);
    for _ in 0..3 {
        assert!(matches!(task.run(&mut tasks), RunStep::Poll(7)));
        assert_eq!(wake_task(&mut tasks, task.header, Some(2)), None);
        assert_eq!(task.state(&tasks).bits(), 0x2_0002);
        let end = task.finish_run(&mut tasks, Some(2), 7, Poll::Pending);
        assert_eq!(end.schedule, Some(Schedule::Push(2)));
        assert_eq!(task.state(&tasks).bits(), 0x1_0001);
        assert_eq!(wake_task(&mut tasks, task.header, Some(2)), None);
    }
    task.run(&mut tasks);
    wake_task(&mut tasks, task.header, Some(2));
    let end = task.finish_run(&mut tasks, Some(2), 7, Poll::Ready(1));
    assert_eq!(end.schedule, None);
}

#[test]
fn waking_keeps_flags_and_references() {
    let mut tasks: Tasks<u8, u32, u64> = Tasks::new();
    let (task, handle) = create_task(&mut tasks, 7);
    handle.poll(&mut tasks, 1);
    retain_task(&mut tasks, task.header);
    wake_task(&mut tasks, task.header, None);
    assert_eq!(task.state(&tasks).bits(), 0x2_0009);
}

#[test]
fn clone_and_drop_on_a_header() {
    let mut tasks: Tasks<u8, u32, u64> = Tasks::new();
    let (task, _handle) = create_task(&mut tasks, 7);
    let mut header = tasks.remove(task.header);
    clone_waker(&mut header);
    assert_eq!(header.state.bits(), 0x2_0000);
    assert!(!drop_waker(&mut header));
    assert_eq!(header.state.bits(), 0x1_0000);
    assert!(wake_by_ref_waker(&mut header));
    assert!(!wake_waker(&mut header));
    header.state = TaskState::from_bits(0x1_0003);
    assert!(drop_waker(&mut header));
    assert_eq!(header.state.bits(), 3);
    assert!(!drop_waker(&mut header));
    assert_eq!(header.state.bits(), 3usize.wrapping_sub(0x1_0000));
    header.state = TaskState::from_bits(usize::MAX);
    clone_waker(&mut header);
    assert_eq!(header.state.bits(), 0xFFFF);
}

#[test]
fn last_waker_takes_the_completed_task() {
    let mut tasks: Tasks<u8, u32, u64> = Tasks::new();
    let (task, handle) = create_task(&mut tasks, 7);
    retain_task(&mut tasks, task.header);
    task.run(&mut tasks);
    assert_eq!(task.state(&tasks).bits(), 0x3_0002);
    task.finish_run(&mut tasks, None, 7, Poll::Ready(1));
    assert_eq!(task.state(&tasks).bits(), 0x2_0003);
    handle.drop(&mut tasks);
    assert_eq!(task.state(&tasks).bits(), 0x1_0003);
    release_task(&mut tasks, task.header);
    assert!(!tasks.contains(task.header));
}

#[test]
fn output_survives_a_cloned_waker() {
    let mut tasks: Tasks<u8, u32, u64> = Tasks::new();
    let (task, handle) = create_task(&mut tasks, 7);
    retain_task(&mut tasks, task.header);
    task.run(&mut tasks);
    task.finish_run(&mut tasks, None, 7, Poll::Ready(42));
    release_task(&mut tasks, task.header);
    assert_eq!(handle.poll(&mut tasks, 0), Poll::Ready(Ok(42)));
    handle.drop(&mut tasks);
    assert!(!tasks.contains(task.header));
}

#[test]
fn detached_task_goes_when_it_completes() {
    let mut tasks: Tasks<u8, u32, u64> = Tasks::new();
    let (task, handle) = create_task(&mut tasks, 7);
    handle.drop(&mut tasks);
    assert_eq!(task.state(&tasks).bits(), 0x1_0000);
    task.run(&mut tasks);
    task.finish_run(&mut tasks, None, 7, Poll::Pending);
    assert_eq!(task.state(&tasks).bits(), 0x1_0000);
    task.run(&mut tasks);
    task.finish_run(&mut tasks, None, 7, Poll::Ready(1));
    assert!(!tasks.contains(task.header));
}

#[test]
fn clone_then_drop_changes_nothing() {
    let mut tasks: Tasks<u8, u32, u64> = Tasks::new();
    let (task, _handle) = create_task(&mut tasks, 7);
    retain_task(&mut tasks, task.header);
    release_task(&mut tasks, task.header);
    assert_eq!(task.state(&tasks).bits(), 0x1_0000);
    assert!(tasks.contains(task.header));
}

#[test]
fn deallocated_tasks_are_gone() {
    let mut tasks: Tasks<u8, u32, u64> = Tasks::new();
    let (first, _a) = create_task(&mut tasks, 7);
    let (second, _b) = create_task(&mut tasks, 8);
    VTableFor::<u8, u32>::deallocate(&mut tasks, first.header);
    assert!(!tasks.contains(first.header));
    assert!(tasks.contains(second.header));
    let (third, _c) = create_task(&mut tasks, 9);
    assert_eq!(third.header, 2);
}

#[test]
fn woken_task_is_queued() {
    let mut tasks: Tasks<u8, u32, u64> = Tasks::new();
    let mut shared = Shared::new(4, Vec::new(), 0);
    let (own, _a) = create_task_with_shared(&mut tasks, 7, 4);
    let (other, _b) = create_task_with_shared(&mut tasks, 7, 5);
    let (any, _c) = create_task(&mut tasks, 7);
    let nowhere = CurrentContext::new();
    assert_eq!(
        wake_and_schedule(&mut tasks, own.header, &nowhere, &mut shared),
        Woken::Queued(Notice { thread: None, worker: false, parker: Some(4) })
    );
    assert_eq!(
        wake_and_schedule(&mut tasks, own.header, &nowhere, &mut shared),
        Woken::Nothing
    );
    assert_eq!(
        wake_and_schedule(&mut tasks, other.header, &nowhere, &mut shared),
        Woken::Elsewhere(5)
    );
    assert_eq!(
        wake_and_schedule(&mut tasks, any.header, &nowhere, &mut shared),
        Woken::Run(any)
    );
    assert_eq!(shared.injector.len(), 1);
    loop {
        if let Some(task) = shared.steal() {
            assert_eq!(task, own);
            break;
        }
    }
    assert_eq!(shared.injector.len(), 0);
}

#[test]
fn wakers_say_what_they_do() {
    assert_eq!(waker_from_task(6), Waker { data: 6, vtable: WakerVtable::Task });
    assert_eq!(noop_waker().vtable, WakerVtable::Noop);
}

#[test]
fn manual_waker_holds_a_reference() {
    let mut tasks: Tasks<u8, u32, u64> = Tasks::new();
    let (task, _handle) = create_task(&mut tasks, 7);
    let manual = ManualWaker::new(&mut tasks, task.header);
    assert_eq!(task.state(&tasks).bits(), 0x2_0000);
    assert_eq!(manual.wake(&tasks, Some(3)), Some(Schedule::Push(3)));
    assert_eq!(manual.wake(&tasks, None), Some(Schedule::Run));
    assert_eq!(task.state(&tasks).bits(), 0x2_0000);
    manual.drop(&mut tasks);
    assert_eq!(task.state(&tasks).bits(), 0x1_0000);
}

#[test]
fn manual_waker_becomes_a_waker() {
    let mut tasks: Tasks<u8, u32, u64> = Tasks::new();
    let (task, _handle) = create_task(&mut tasks, 7);
    let manual = ManualWaker::new(&mut tasks, task.header);
    assert_eq!(manual.into_waker(), waker_from_task(task.header));
    assert_eq!(task.state(&tasks).bits(), 0x2_0000);
    release_task(&mut tasks, task.header);
    assert_eq!(task.state(&tasks).bits(), 0x1_0000);
}

#[test]
fn callback_waker_calls_its_closure() {
    let calls = Arc::new(AtomicUsize::new(0));
    let counted = calls.clone();
    let waker = CallbackWaker::new(move || {
        counted.fetch_add(1, Ordering::SeqCst);
    });
    assert_eq!(calls.load(Ordering::SeqCst), 0);
    waker.wake();
    assert_eq!(calls.load(Ordering::SeqCst), 1);
    waker.wake_by_ref();
    assert_eq!(calls.load(Ordering::SeqCst), 2);
    let other = waker.clone();
    drop(waker);
    assert_eq!(calls.load(Ordering::SeqCst), 2);
    other.wake();
    assert_eq!(calls.load(Ordering::SeqCst), 3);
    let silent = CallbackWaker { callback: None::<fn()> };
    silent.wake();
    assert_eq!(calls.load(Ordering::SeqCst), 3);
}

//! Handles, builders and runtimes.

use loony_rs_runtime::runtime::builder::RuntimeFlavor;
use loony_rs_runtime::runtime::handle::{
    help_or_yield, spawn, BlockOnMode, BlockOnState, Handle, RuntimeExt, WorkerRef, TASKS_AT_ONCE,
};
use loony_rs_runtime::runtime::park::{ParkStep, UnparkStep};
use loony_rs_runtime::runtime::scheduler::current_thread::LocalQueue;
use loony_rs_runtime::runtime::scheduler::multi_thread::{
    BlockOnParker, BlockOnStep, CurrentContext, MultiThread, Notice, Shared,
};
use loony_rs_runtime::runtime::{RuntimeKind, RuntimeShutdown, Unpark};
use loony_rs_runtime::task::{FutureExt, Poll, Task, Tasks};
use loony_rs_runtime::{Builder, Runtime};
use std::future::{ready, Ready};

/// Take from the shared queue, again if asked to.
fn take(shared: &mut Shared) -> Option<u64> {
    loop {
        let task = shared.steal();
        if task.is_some() || shared.injector.is_empty() {
            return task.map(|task| task.into_raw());
        }
    }
}

#[test]
fn builder_has_at_least_one_worker() {
    let builder = Builder::new_multi_thread(Some(6));
    assert_eq!(builder.worker_threads, 6);
    assert_eq!(builder.flavor, RuntimeFlavor::MultiThread);
    assert_eq!(Builder::new_multi_thread(None).worker_threads, 1);
    assert_eq!(builder.worker_threads(0).worker_threads, 1);
    assert_eq!(builder.worker_threads(3).worker_threads, 3);
    assert_eq!(Builder::new_current_thread().worker_threads, 1);
    assert_eq!(Builder::new_current_thread().flavor, RuntimeFlavor::CurrentThread);
}

#[test]
fn built_runtimes() {
    let mut local = LocalQueue::new(30);
    let many = Builder::new_multi_thread(None).worker_threads(2).build(1, &mut local);
    assert_eq!(many.handle(), Handle { shared: 1, local: false });
    assert_eq!(local.parker, None);
    match &many.inner {
        RuntimeKind::MultiThread(scheduler) => {
            assert_eq!(scheduler.workers, vec![0, 1]);
            assert!(scheduler.handle().is_multi_thread(&scheduler.shared));
            assert!(!scheduler.handle().is_shutdown(&scheduler.shared, true));
        }
        RuntimeKind::CurrentThread(_) => panic!("a runtime with workers was asked for"),
    }
    let one = Builder::new_current_thread().build(2, &mut local);
    assert_eq!(one.handle(), Handle { shared: 2, local: true });
    assert_eq!(local.parker, Some(2));
    match &one.inner {
        RuntimeKind::CurrentThread(scheduler) => {
            assert!(!scheduler.handle().is_multi_thread(&scheduler.shared));
            assert!(scheduler.shared.injector.is_empty());
            assert!(!scheduler.shared.shutdown);
            assert!(!scheduler.handle().is_shutdown(&scheduler.shared, false));
        }
        RuntimeKind::MultiThread(_) => panic!("a runtime without workers was asked for"),
    }
    let new = Runtime::new(3, Some(4), &mut local);
    match &new.inner {
        RuntimeKind::MultiThread(scheduler) => assert_eq!(scheduler.workers.len(), 4),
        RuntimeKind::CurrentThread(_) => panic!("a new runtime has workers"),
    }
}

#[test]
fn multi_thread_runtime_from_spawn_to_drop() {
    let mut local = LocalQueue::new(30);
    let mut runtime = Builder::new_multi_thread(Some(2)).build(1, &mut local);
    let mut tasks: Tasks<u8, u32, u64> = Tasks::new();
    let (join, unpark) = runtime.spawn(&mut local, &mut tasks, 5);
    assert_eq!(
        unpark,
        Unpark::Notice(Notice { thread: None, worker: false, parker: None })
    );
    let mut parker = BlockOnParker::new(9);
    loop {
        let polled = Some(join.poll(&mut tasks, 9));
        match runtime.block_on(&mut local, &mut parker, polled) {
            BlockOnStep::Return(result) => {
                assert_eq!(result, Ok(50));
                break;
            }
            BlockOnStep::Run(task) => {
                task.run(&mut tasks);
                assert_eq!(task.finish_run(&mut tasks, Some(1), 5, Poll::Ready(50)).wake, Some(9));
            }
            BlockOnStep::Yield => {}
            BlockOnStep::Park(_) => panic!("the task is waiting"),
        }
    }
    let mut current = CurrentContext { context: Some(1), worker: None };
    match runtime.drop(&mut local, &mut current) {
        RuntimeShutdown::MultiThread(shutdown) => assert_eq!(shutdown.join, vec![0, 1]),
        RuntimeShutdown::CurrentThread(_) => panic!("the runtime has workers"),
    }
    assert_eq!(current.context, None);
}

#[test]
fn current_thread_runtime_from_spawn_to_drop() {
    let mut local = LocalQueue::new(30);
    let mut runtime = Builder::new_current_thread().build(1, &mut local);
    let mut tasks: Tasks<u8, u32, u64> = Tasks::new();
    let (join, unpark) = runtime.spawn(&mut local, &mut tasks, 5);
    assert_eq!(unpark, Unpark::Parker(UnparkStep::Nothing));
    let mut parker = BlockOnParker::new(9);
    let step = runtime.block_on(&mut local, &mut parker, Some(join.poll(&mut tasks, 9)));
    match step {
        BlockOnStep::Run(task) => {
            task.run(&mut tasks);
            task.finish_run(&mut tasks, None, 5, Poll::Ready(50));
        }
        _ => panic!("the task is waiting"),
    }
    let step = runtime.block_on::<Result<u32, ()>>(&mut local, &mut parker, None);
    assert!(matches!(step, BlockOnStep::Park(ParkStep::Return)));
    let step = runtime.block_on(&mut local, &mut parker, Some(join.poll(&mut tasks, 9)));
    assert!(matches!(step, BlockOnStep::Return(Ok(50))));
    runtime.spawn(&mut local, &mut tasks, 6);
    let mut current = CurrentContext { context: Some(8), worker: None };
    let shutdown = runtime.drop(&mut local, &mut current);
    assert!(matches!(shutdown, RuntimeShutdown::CurrentThread(UnparkStep::Nothing)));
    match &runtime.inner {
        RuntimeKind::CurrentThread(scheduler) => {
            let own = runtime.handle();
            let other = Handle { shared: 1, local: false };
            assert!(own.is_shutdown(&scheduler.shared, scheduler.shutdown));
            assert!(other.is_shutdown(&scheduler.shared, scheduler.shutdown));
        }
        RuntimeKind::MultiThread(_) => panic!("the runtime has no workers"),
    }
    assert!(local.tasks.is_empty());
    assert_eq!(local.parker, None);
    assert_eq!(current.context, Some(8));
}

#[test]
fn handle_spawns_tasks() {
    let mut scheduler = MultiThread::new(3, 2);
    let handle = scheduler.handle();
    let shared = &mut scheduler.shared;
    shared.unparkers[0].park(10);
    let mut tasks: Tasks<u8, (), u64> = Tasks::new();
    let notice = Notice { thread: Some(10), worker: false, parker: None };
    let (first, told) = handle.spawn(shared, &mut tasks, 1);
    assert_eq!(told, notice);
    assert_eq!(handle.spawn_background(shared, &mut tasks, 2), notice);
    assert_eq!(handle.spawn_task(shared, Task::from_raw(first.header())), notice);
    assert_eq!(RuntimeExt::spawn(&handle, shared, &mut tasks, 3), notice);
    let (last, _notice) = handle.spawn_join(shared, &mut tasks, 4);
    assert_eq!(handle.injector(shared).len(), 5);
    assert_eq!(handle.shared(), 3);
    let mut order = Vec::new();
    while let Some(task) = take(shared) {
        order.push(task);
    }
    assert_eq!(order, vec![0, 1, 0, 2, last.header()]);
    assert_eq!(tasks.get(2).future, Some(3));
    assert!(!tasks.get(0).detached);
    assert!(tasks.get(1).detached);
    assert!(tasks.get(2).detached);
    let background = Task::from_raw(1);
    background.run(&mut tasks);
    background.finish_run(&mut tasks, Some(3), 2, Poll::Ready(()));
    assert!(!tasks.contains(1));
}

#[test]
fn tasks_are_spawned_onto_the_current_runtime() {
    let mut scheduler = MultiThread::new(3, 2);
    let mut current = CurrentContext::new();
    assert_eq!(Handle::current(&current), None);
    let guard = scheduler.handle().enter(&mut current);
    assert_eq!(Handle::current(&current), Some(Handle { shared: 3, local: false }));
    let mut tasks: Tasks<Ready<u32>, u32, u64> = Tasks::new();
    let shared = &mut scheduler.shared;
    let (first, _unpark) = spawn(&current, shared, &mut tasks, ready(1));
    let (second, _unpark) = loony_rs_runtime::spawn(&current, shared, &mut tasks, ready(2));
    let (third, _unpark) = ready(3).spawn(&current, shared, &mut tasks);
    assert_eq!(take(shared), Some(first.header()));
    assert_eq!(take(shared), Some(second.header()));
    assert_eq!(take(shared), Some(third.header()));
    guard.drop(&mut current);
    assert_eq!(Handle::current(&current), None);
}

#[test]
fn enter_guards_restore_what_was_current() {
    let outer = Handle { shared: 3, local: false };
    let inner = Handle { shared: 4, local: true };
    let mut current = CurrentContext { context: None, worker: Some(2) };
    let first = outer.enter(&mut current);
    let second = inner.enter(&mut current);
    assert_eq!(current, CurrentContext { context: Some(4), worker: Some(2) });
    assert_eq!(second.deref(), &inner);
    second.drop(&mut current);
    assert_eq!(current.context, Some(3));
    first.drop(&mut current);
    assert_eq!(current, CurrentContext { context: None, worker: Some(2) });
}

#[test]
fn how_a_handle_blocks() {
    let handle = Handle { shared: 3, local: false };
    let here = CurrentContext { context: Some(3), worker: None };
    let there = CurrentContext { context: Some(4), worker: None };
    let nowhere = CurrentContext::new();
    assert_eq!(handle.block_on(&here), BlockOnMode::WithWorker(WorkerRef::MultiThread));
    assert_eq!(handle.block_on(&there), BlockOnMode::WithWorker(WorkerRef::Other));
    assert_eq!(handle.block_on(&nowhere), BlockOnMode::Simple);
    assert_eq!(handle.try_get_worker(&here), Some(WorkerRef::MultiThread));
    assert_eq!(handle.try_get_worker(&nowhere), None);
}

#[test]
fn handle_processes_some_tasks_at_a_time() {
    let mut shared = Shared::new(3, Vec::new(), 0);
    let handle = Handle { shared: 3, local: false };
    assert_eq!(TASKS_AT_ONCE, 10);
    for header in 0..12 {
        shared.push(Task::from_raw(header));
    }
    let mut processed = 0;
    loop {
        let step: BlockOnStep<u8> = handle.block_on_simple(&mut shared, None, processed);
        match step {
            BlockOnStep::Run(task) => {
                assert_eq!(task.header, processed as u64);
                processed += 1;
            }
            BlockOnStep::Yield => {
                if processed >= 10 {
                    break;
                }
            }
            _ => panic!("there are tasks"),
        }
    }
    assert_eq!(processed, 10);
    assert_eq!(shared.injector.len(), 2);
    assert_eq!(handle.process_some_tasks(&mut shared, 10), None);
    assert_eq!(shared.injector.len(), 2);
}

#[test]
fn what_a_thread_does_that_blocks_with_a_handle() {
    let step: BlockOnStep<u8> = help_or_yield(Some(Task::from_raw(4)));
    assert!(matches!(step, BlockOnStep::Run(Task { header: 4 })));
    let step: BlockOnStep<u8> = help_or_yield(None);
    assert!(matches!(step, BlockOnStep::Yield));
}

#[test]
fn handle_blocks_with_a_worker() {
    let mut shared = Shared::new(3, Vec::new(), 0);
    let handle = Handle { shared: 3, local: false };
    let worker = WorkerRef::MultiThread;
    let step: BlockOnStep<u8> =
        handle.block_on_with_worker(&worker, &mut shared, Some(Poll::Pending), 0);
    assert!(matches!(step, BlockOnStep::Yield));
    let step = handle.block_on_with_worker(&worker, &mut shared, Some(Poll::Ready(7)), 0);
    assert!(matches!(step, BlockOnStep::Return(7)));
}

#[test]
fn block_on_state_passes_wakes_on() {
    let mut state: BlockOnState<u64> = BlockOnState::new();
    assert_eq!(state.wake_by_ref(), None);
    state.waker = Some(4);
    assert_eq!(state.wake_by_ref(), Some(4));
    assert_eq!(state.wake_by_ref(), None);
    state.waker = Some(5);
    assert_eq!(state.wake(), Some(5));
    assert_eq!(state.wake(), None);
}

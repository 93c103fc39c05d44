//! The schedulers and the queues that they take tasks from.

use crossbeam::deque::Worker;
use loony_rs_runtime::runtime::handle::{wake_and_schedule, Handle, Woken};
use loony_rs_runtime::runtime::park::{ParkState, ParkStep, UnparkStep};
use loony_rs_runtime::runtime::scheduler::current_thread::{
    spawn_local, CurrentThread, LocalQueue, TurnStep,
};
use loony_rs_runtime::runtime::scheduler::multi_thread::{
    help_or_park, success, BlockOnParker, BlockOnStep, ContextGuard, CurrentContext, MultiThread,
    Notice, Shared,
    ThreadUnpark, WorkerPhase, WorkerStep, WorkerThread,
};
use loony_rs_runtime::runtime::scheduler::queue::Steal;
use loony_rs_runtime::task::raw::Schedule;
use loony_rs_runtime::task::{FutureExt, Poll, Task, Tasks};
use std::future::{ready, Ready};

fn task(header: u64) -> Task {
    Task::from_raw(header)
}

/// A worker queue with some tasks.
fn queue(tasks: &[u64]) -> Worker<u64> {
    let worker = Worker::new_fifo();
    for task in tasks {
        worker.push(*task);
    }
    worker
}

/// Shared state whose workers have queues with some tasks.
fn shared_with(queues: &[&[u64]]) -> Shared {
    Shared::new(1, queues.iter().map(|tasks| queue(tasks)).collect(), queues.len())
}

/// Take from the shared queue, again if asked to.
fn take(shared: &mut Shared) -> Option<Task> {
    loop {
        let task = shared.steal();
        if task.is_some() || shared.injector.is_empty() {
            return task;
        }
    }
}

#[test]
fn shared_queue_is_first_in_first_out() {
    let mut shared = shared_with(&[]);
    assert_eq!(take(&mut shared), None);
    shared.push(task(5));
    shared.push(task(6));
    assert_eq!(take(&mut shared), Some(task(5)));
    shared.push(task(7));
    assert_eq!(take(&mut shared), Some(task(6)));
    assert_eq!(take(&mut shared), Some(task(7)));
    assert_eq!(take(&mut shared), None);
}

#[test]
fn attempts_to_steal() {
    assert_eq!(success(Steal::Success(4)), Some(task(4)));
    assert_eq!(success(Steal::Empty), None);
    assert_eq!(success(Steal::Retry), None);
}

#[test]
fn worker_steals_from_the_next_one_on() {
    let mut shared = shared_with(&[&[10], &[20, 21], &[], &[40]]);
    assert_eq!(WorkerThread::steal_work(&mut shared, 1), Some(task(40)));
    assert_eq!(WorkerThread::steal_work(&mut shared, 1), Some(task(10)));
    assert_eq!(WorkerThread::steal_work(&mut shared, 1), None);
    assert_eq!(shared.stealers[1].len(), 2);
    assert_eq!(WorkerThread::steal_work(&mut shared, 3), Some(task(20)));
    assert_eq!(WorkerThread::steal_work(&mut shared, 0), Some(task(21)));
    assert!(shared.stealers[1].is_empty());
}

#[test]
fn single_worker_has_nobody_to_steal_from() {
    let mut shared = shared_with(&[&[10]]);
    assert_eq!(WorkerThread::steal_work(&mut shared, 0), None);
    assert_eq!(shared.stealers[0].len(), 1);
}

#[test]
fn stealing_conserves_tasks() {
    let mut shared = shared_with(&[&[1, 2], &[3], &[4, 5, 6]]);
    let mut stolen = Vec::new();
    while let Some(task) = WorkerThread::steal_work(&mut shared, 0) {
        stolen.push(task.header);
    }
    assert_eq!(stolen, vec![3, 4, 5, 6]);
    assert_eq!(shared.stealers[0].len(), 2);
}

#[test]
fn worker_takes_own_then_stolen_then_shared_tasks() {
    let mut shared = shared_with(&[&[10], &[20]]);
    shared.push(task(30));
    let mut current = CurrentContext::new();
    let mut worker = WorkerThread::start(1, &shared, &mut current);
    assert_eq!(current, CurrentContext { context: Some(1), worker: Some(1) });
    assert_eq!(worker.run(&mut shared, &mut current), WorkerStep::Run(task(20)));
    assert_eq!(worker.run(&mut shared, &mut current), WorkerStep::Run(task(10)));
    assert_eq!(worker.run(&mut shared, &mut current), WorkerStep::Run(task(30)));
    assert_eq!(shared.active, 2);
    assert!(!shared.notify_worker().worker);
    assert_eq!(worker.run(&mut shared, &mut current), WorkerStep::Again);
    assert_eq!(shared.active, 1);
    assert_eq!(worker.phase, WorkerPhase::Idle);
    assert_eq!(worker.run(&mut shared, &mut current), WorkerStep::Wait);
    shared.push(task(31));
    assert!(shared.notify_worker().worker);
    assert_eq!(worker.run(&mut shared, &mut current), WorkerStep::Run(task(31)));
    assert_eq!(shared.active, 2);
    assert_eq!(worker.phase, WorkerPhase::Searching);
    assert_eq!(current, CurrentContext { context: Some(1), worker: Some(1) });
}

#[test]
fn what_a_search_comes_to() {
    let mut shared = shared_with(&[&[]]);
    let mut worker = WorkerThread { index: 0, phase: WorkerPhase::Searching };
    assert_eq!(worker.after_search(&mut shared, Some(task(4))), WorkerStep::Run(task(4)));
    assert_eq!(worker.phase, WorkerPhase::Searching);
    assert_eq!(worker.after_search(&mut shared, None), WorkerStep::Again);
    assert_eq!(worker.phase, WorkerPhase::Idle);
    assert_eq!(shared.active, 0);
    assert_eq!(worker.after_check(&mut shared, None), WorkerStep::Wait);
    shared.push(task(6));
    assert_eq!(worker.after_check(&mut shared, None), WorkerStep::Again);
    assert_eq!(worker.phase, WorkerPhase::Idle);
    assert_eq!(worker.after_check(&mut shared, Some(task(5))), WorkerStep::Run(task(5)));
    assert_eq!(worker.phase, WorkerPhase::Searching);
    assert_eq!(shared.active, 1);
}

#[test]
fn what_a_blocked_thread_does() {
    let mut parker = BlockOnParker::new(1);
    let step: BlockOnStep<u8> = help_or_park(&mut parker, Some(task(4)), true);
    assert!(matches!(step, BlockOnStep::Run(Task { header: 4 })));
    let step: BlockOnStep<u8> = help_or_park(&mut parker, None, false);
    assert!(matches!(step, BlockOnStep::Yield));
    let step: BlockOnStep<u8> = help_or_park(&mut parker, None, true);
    assert!(matches!(step, BlockOnStep::Park(ParkStep::ParkThread)));
}

#[test]
fn shutdown_ends_workers() {
    let mut shared = shared_with(&[&[10], &[]]);
    let mut current = CurrentContext::new();
    let mut searching = WorkerThread::start(0, &shared, &mut current);
    let mut idle = WorkerThread { index: 1, phase: WorkerPhase::Idle };
    shared.active = 1;
    shared.shutdown = true;
    assert_eq!(idle.run(&mut shared, &mut current), WorkerStep::Again);
    assert_eq!(shared.active, 2);
    assert_eq!(idle.run(&mut shared, &mut current), WorkerStep::Exit);
    assert_eq!(current, CurrentContext::new());
    assert_eq!(searching.run(&mut shared, &mut current), WorkerStep::Exit);
    assert_eq!(shared.stealers[0].len(), 1);
}

#[test]
fn context_guard_restores() {
    let mut current = CurrentContext { context: Some(3), worker: Some(2) };
    let guard = ContextGuard::new(&mut current, 8);
    assert_eq!(current, CurrentContext { context: Some(8), worker: None });
    assert_eq!(current.current_shared(), Some(8));
    assert_eq!(current.current_worker(), None);
    guard.drop(&mut current);
    assert_eq!(current, CurrentContext { context: Some(3), worker: Some(2) });
}

#[test]
fn new_multi_thread_scheduler() {
    let scheduler = MultiThread::new(7, 3);
    assert_eq!(scheduler.handle(), Handle { shared: 7, local: false });
    assert_eq!(scheduler.workers, vec![0, 1, 2]);
    assert_eq!(scheduler.shared.active, 3);
    assert!(!scheduler.shared.shutdown);
    assert_eq!(scheduler.shared.unparkers[2], ThreadUnpark { thread: None, id: 2 });
    assert_eq!(scheduler.shared.stealers.len(), 3);
    assert!(scheduler.shared.stealers.iter().all(|queue| queue.is_empty()));
    assert!(scheduler.shared.injector.is_empty());
}

#[test]
fn worker_queues_of_a_new_scheduler_are_first_in_first_out() {
    let mut scheduler = MultiThread::new(7, 1);
    scheduler.shared.stealers[0].push(4);
    scheduler.shared.stealers[0].push(5);
    let mut current = CurrentContext::new();
    let mut worker = WorkerThread::start(0, &scheduler.shared, &mut current);
    assert_eq!(worker.run(&mut scheduler.shared, &mut current), WorkerStep::Run(task(4)));
    assert_eq!(scheduler.steal_work(), Some(task(5)));
}

#[test]
fn first_worker_is_notified() {
    let mut scheduler = MultiThread::new(7, 2);
    assert_eq!(scheduler.notify_worker().thread, None);
    scheduler.shared.unparkers[1].park(11);
    assert_eq!(scheduler.notify_worker().thread, None);
    scheduler.shared.unparkers[0].park(10);
    assert_eq!(
        scheduler.notify_worker(),
        Notice { thread: Some(10), worker: false, parker: None }
    );
    scheduler.shared.active = 1;
    assert!(scheduler.notify_worker().worker);
    assert_eq!(
        Shared::new(1, Vec::new(), 0).notify_worker(),
        Notice { thread: None, worker: false, parker: Some(1) }
    );
}

#[test]
fn spawned_tasks_go_to_the_shared_queue() {
    let mut scheduler = MultiThread::new(7, 2);
    scheduler.shared.unparkers[0].park(10);
    let mut tasks: Tasks<u8, u32, u64> = Tasks::new();
    let (first, notice) = scheduler.spawn(&mut tasks, 1);
    assert_eq!(notice.thread, Some(10));
    let (second, _notice) = scheduler.spawn(&mut tasks, 2);
    assert_eq!(take(&mut scheduler.shared), Some(task(first.header())));
    assert_eq!(take(&mut scheduler.shared), Some(task(second.header())));
    assert_eq!(tasks.get(second.header()).future, Some(2));
}

#[test]
fn blocked_thread_helps_and_parks() {
    let mut scheduler = MultiThread::new(7, 2);
    scheduler.shared.stealers[1].push(4);
    scheduler.shared.push(task(5));
    let mut current = CurrentContext { context: Some(2), worker: None };
    let (mut parker, guard) = scheduler.start_block_on(6, &mut current);
    assert_eq!(current.context, Some(7));
    assert_eq!(parker.id, 6);
    let step: BlockOnStep<u8> = scheduler.block_on(&mut parker, Poll::Pending);
    assert!(matches!(step, BlockOnStep::Run(Task { header: 4 })));
    loop {
        let step: BlockOnStep<u8> = scheduler.block_on(&mut parker, Poll::Pending);
        match step {
            BlockOnStep::Run(found) => {
                assert_eq!(found, task(5));
                break;
            }
            BlockOnStep::Yield => {}
            _ => panic!("there is a task"),
        }
    }
    let step: BlockOnStep<u8> = scheduler.block_on(&mut parker, Poll::Pending);
    assert!(matches!(step, BlockOnStep::Park(ParkStep::ParkThread)));
    parker.unpark();
    let step: BlockOnStep<u8> = scheduler.block_on(&mut parker, Poll::Pending);
    assert!(matches!(step, BlockOnStep::Park(ParkStep::Return)));
    let step = scheduler.block_on(&mut parker, Poll::Ready(3));
    assert!(matches!(step, BlockOnStep::Return(3)));
    guard.drop(&mut current);
    assert_eq!(current, CurrentContext { context: Some(2), worker: None });
}

#[test]
fn shutdown_of_a_multi_thread_scheduler() {
    let mut scheduler = MultiThread::new(7, 3);
    scheduler.shared.unparkers[0].park(10);
    scheduler.shared.unparkers[2].park(12);
    scheduler.shared.push(task(5));
    let mut current = CurrentContext { context: Some(7), worker: Some(1) };
    let shutdown = scheduler.shutdown(&mut current);
    assert_eq!(shutdown.unpark, vec![10, 12]);
    assert_eq!(shutdown.join, vec![0, 1, 2]);
    assert!(scheduler.workers.is_empty());
    assert!(scheduler.shared.shutdown);
    assert_eq!(scheduler.shared.injector.len(), 1);
    assert_eq!(current, CurrentContext { context: None, worker: Some(1) });
    assert!(scheduler.handle().is_shutdown(&scheduler.shared, false));
}

#[test]
fn new_current_thread_scheduler() {
    let mut local = LocalQueue::new(30);
    assert_eq!(local.parker, None);
    let scheduler = CurrentThread::new(5, &mut local);
    assert!(!scheduler.handle().is_shutdown(&scheduler.shared, scheduler.shutdown));
    assert_eq!(local.parker, Some(5));
    assert_eq!(scheduler.handle(), Handle { shared: 5, local: true });
    assert_eq!(scheduler.shared.active, 1);
    assert!(scheduler.shared.stealers.is_empty());
    assert!(!scheduler.shutdown);
    assert!(scheduler.is_idle(&local));
    assert!(scheduler.turned());
}

#[test]
fn current_thread_runs_tasks_in_order() {
    let mut local = LocalQueue::new(30);
    let mut scheduler = CurrentThread::new(5, &mut local);
    let mut tasks: Tasks<u8, u32, u64> = Tasks::new();
    let (first, unpark) = scheduler.spawn(&mut local, &mut tasks, 1);
    assert_eq!(unpark, UnparkStep::Nothing);
    assert_eq!(scheduler.spawn_task(&mut local, task(8)), UnparkStep::Nothing);
    assert!(!scheduler.is_idle(&local));
    assert_eq!(scheduler.run_until_idle(&mut local), Some(task(first.header())));
    assert_eq!(scheduler.run_until_idle(&mut local), Some(task(8)));
    assert_eq!(scheduler.run_until_idle(&mut local), None);
}

#[test]
fn current_thread_blocks_on_a_future() {
    let mut local = LocalQueue::new(30);
    let mut scheduler = CurrentThread::new(5, &mut local);
    scheduler.spawn_task(&mut local, task(8));
    let step: BlockOnStep<u8> = scheduler.block_on(&mut local, Some(Poll::Pending));
    assert!(matches!(step, BlockOnStep::Run(Task { header: 8 })));
    let step: BlockOnStep<u8> = scheduler.block_on(&mut local, None);
    assert!(matches!(step, BlockOnStep::Park(ParkStep::Return)));
    let step: BlockOnStep<u8> = scheduler.block_on(&mut local, Some(Poll::Pending));
    assert!(matches!(step, BlockOnStep::Park(ParkStep::Wait(None))));
    let step = scheduler.block_on(&mut local, Some(Poll::Ready(2)));
    assert!(matches!(step, BlockOnStep::Return(2)));
}

#[test]
fn turns_of_a_current_thread_scheduler() {
    let mut local = LocalQueue::new(30);
    let mut scheduler = CurrentThread::new(5, &mut local);
    local.tasks.push_back(task(8));
    assert!(matches!(scheduler.turn(&mut local, Some(3)), TurnStep::Run(Task { header: 8 })));
    assert!(matches!(
        scheduler.turn(&mut local, Some(3)),
        TurnStep::Park(ParkStep::Wait(Some(3)))
    ));
    assert_eq!(scheduler.spawn_task(&mut local, task(9)), UnparkStep::Notify);
    assert_eq!(scheduler.shutdown(&mut local), UnparkStep::Nothing);
    assert_eq!(scheduler.parker.state, ParkState::Notified);
    assert!(local.tasks.is_empty());
    assert_eq!(local.parker, None);
    assert!(matches!(scheduler.turn(&mut local, None), TurnStep::Done));
    assert!(!scheduler.turned());
    assert!(scheduler.handle().is_shutdown(&scheduler.shared, scheduler.shutdown));
    let other = Handle { shared: 5, local: false };
    assert!(other.is_shutdown(&scheduler.shared, scheduler.shutdown));
}

#[test]
fn current_thread_runs_what_handles_spawn() {
    let mut local = LocalQueue::new(30);
    let mut scheduler = CurrentThread::new(5, &mut local);
    let handle = scheduler.handle();
    assert_eq!(handle.spawn_task(&mut scheduler.shared, task(8)).parker, Some(5));
    local.tasks.push_back(task(9));
    assert!(!scheduler.is_idle(&local));
    assert_eq!(scheduler.run_until_idle(&mut local), Some(task(9)));
    assert!(!scheduler.is_idle(&local));
    loop {
        let step: BlockOnStep<u8> = scheduler.block_on(&mut local, None);
        match step {
            BlockOnStep::Run(found) => {
                assert_eq!(found, task(8));
                break;
            }
            BlockOnStep::Yield => {}
            _ => panic!("there is a task"),
        }
    }
    assert!(scheduler.is_idle(&local));
    let step: BlockOnStep<u8> = scheduler.after_run(None, false);
    assert!(matches!(step, BlockOnStep::Yield));
}

#[test]
fn local_tasks_wait_on_their_thread() {
    let mut local = LocalQueue::new(30);
    let mut tasks: Tasks<Ready<u32>, u32, u64> = Tasks::new();
    let (first, unpark) = spawn_local(&mut local, &mut tasks, ready(1));
    assert_eq!(unpark, None);
    local.parker = Some(5);
    let (second, unpark) = loony_rs_runtime::task::spawn_local(&mut local, &mut tasks, ready(2));
    assert_eq!(unpark, Some(5));
    let (third, unpark) = ready(3).spawn_local(&mut local, &mut tasks);
    assert_eq!(unpark, Some(5));
    let waiting: Vec<u64> = local.tasks.iter().map(|task| task.header).collect();
    assert_eq!(waiting, vec![first.header(), second.header(), third.header()]);
    assert_eq!(waiting, vec![0, 1, 2]);
}

#[test]
fn local_tasks_stay_on_their_thread() {
    let mut local = LocalQueue::new(30);
    local.parker = Some(5);
    let mut tasks: Tasks<u8, u32, u64> = Tasks::new();
    let (join, _parker) = spawn_local(&mut local, &mut tasks, 1);
    let spawned = task(join.header());
    assert_eq!(local.tasks.pop_front(), Some(spawned));
    let elsewhere = CurrentContext { context: Some(1), worker: Some(0) };
    let mut shared = shared_with(&[&[]]);
    for _ in 0..2 {
        assert_eq!(
            wake_and_schedule(&mut tasks, join.header(), &elsewhere, &mut shared),
            Woken::Local(30)
        );
        assert!(shared.injector.is_empty());
        assert_eq!(local.push(spawned), Some(5));
        assert_eq!(local.tasks.pop_front(), Some(spawned));
        spawned.run(&mut tasks);
        spawned.finish_run(&mut tasks, Some(1), 1, Poll::Pending);
    }
    spawned.run(&mut tasks);
    wake_and_schedule(&mut tasks, join.header(), &elsewhere, &mut shared);
    let end = spawned.finish_run(&mut tasks, Some(1), 1, Poll::Pending);
    assert_eq!(end.schedule, Some(Schedule::Local(30)));
}

#[test]
fn what_a_turn_comes_to() {
    let mut local = LocalQueue::new(30);
    let mut scheduler = CurrentThread::new(5, &mut local);
    assert!(matches!(
        scheduler.after_turn(Some(task(4)), false, None),
        TurnStep::Run(Task { header: 4 })
    ));
    assert!(matches!(scheduler.after_turn(None, false, None), TurnStep::Done));
    assert!(matches!(
        scheduler.after_turn(None, true, Some(9)),
        TurnStep::Park(ParkStep::Wait(Some(9)))
    ));
    scheduler.shutdown = true;
    assert!(matches!(scheduler.after_turn(None, true, None), TurnStep::Done));
}

#[test]
fn block_on_parker_is_left_alone_by_a_result() {
    let mut scheduler = MultiThread::new(7, 1);
    let mut parker = BlockOnParker::new(1);
    parker.unpark();
    scheduler.block_on(&mut parker, Poll::Ready(3));
    assert!(parker.unparked);
}

//! Tasks, their state words and their join handles.

use loony_rs_runtime::runtime::scheduler::multi_thread::BlockOnStep;
use loony_rs_runtime::task::raw::{
    abort_task, create_raw_task, set_join_waker, try_read_output, Header, Layout, RunStep, Schedule,
    SchedulerData, VTableFor,
};
use loony_rs_runtime::task::state::TaskState;
use loony_rs_runtime::task::waker::{retain_task, wake_task};
use loony_rs_runtime::task::{
    block_on, create_local_task, create_task, create_task_with_shared, register_interest, take_result, yield_now,
    JoinError, JoinHandle, Poll, Task, Tasks, YieldNow,
};
use std::future::Future;
use std::pin::Pin;
use std::sync::atomic::{AtomicBool, AtomicUsize, Ordering};
use std::sync::Arc;
use std::task::{Context, Wake, Waker};

type BoxFuture<T> = Pin<Box<dyn Future<Output = T>>>;

/// A waker that counts how often it is woken.
struct Counter {
    wakes: AtomicUsize,
}

impl Wake for Counter {
    fn wake(self: Arc<Self>) {
        self.wakes.fetch_add(1, Ordering::SeqCst);
    }
}

fn counter() -> Arc<Counter> {
    Arc::new(Counter { wakes: AtomicUsize::new(0) })
}

fn poll_future<T>(future: &mut BoxFuture<T>, waker: &Waker) -> Poll<T> {
    let mut cx = Context::from_waker(waker);
    match future.as_mut().poll(&mut cx) {
        std::task::Poll::Ready(output) => Poll::Ready(output),
        std::task::Poll::Pending => Poll::Pending,
    }
}

/// Run a task once, as a worker does.
fn run_task<T>(task: &Task, tasks: &mut Tasks<BoxFuture<T>, T, u64>) -> Option<u64> {
    match task.run(tasks) {
        RunStep::Poll(mut future) => {
            let waker: Waker = counter().into();
            let polled = poll_future(&mut future, &waker);
            task.finish_run(tasks, None, future, polled).wake
        }
        RunStep::Aborted => None,
        RunStep::Complete => None,
        RunStep::Busy => panic!("the future is out"),
    }
}

/// Block on a join handle.
fn block_on_handle<T>(
    handle: &JoinHandle<T>,
    tasks: &mut Tasks<BoxFuture<T>, T, u64>,
) -> Result<T, JoinError> {
    for _ in 0..1000 {
        match block_on(handle.poll(tasks, 0)) {
            BlockOnStep::Return(result) => return result,
            BlockOnStep::Yield => {}
            _ => panic!("neither a result nor a yield"),
        }
    }
    panic!("the task does not complete")
}

/// The future of a `YieldNow`.
struct Yielding {
    inner: YieldNow,
}

impl Future for Yielding {
    type Output = ();

    fn poll(mut self: Pin<&mut Self>, cx: &mut Context<'_>) -> std::task::Poll<()> {
        let (polled, wake) = self.inner.poll(cx.waker());
        if let Some(waker) = wake {
            waker.wake_by_ref();
        }
        match polled {
            Poll::Ready(()) => std::task::Poll::Ready(()),
            Poll::Pending => std::task::Poll::Pending,
        }
    }
}

fn yielding() -> Yielding {
    Yielding { inner: yield_now() }
}

/// A header as a new task has it, with other state bits.
fn header_with(bits: usize) -> Header<u8, u32, u64> {
    Header {
        state: TaskState::from_bits(bits),
        scheduler: None,
        future: Some(1),
        output: None,
        join_waker: None,
        woken: false,
        detached: false,
        stopped: false,
    }
}

#[test]
fn test_task_creation() {
    let mut tasks: Tasks<BoxFuture<i32>, i32, u64> = Tasks::new();
    let future: BoxFuture<i32> = Box::pin(async { 42 });
    let (task, handle) = create_task(&mut tasks, future);

    // Task should be initially idle
    assert!(task.state(&tasks).is_idle());

    // Run the task
    run_task(&task, &mut tasks);

    // Task should now be complete
    assert!(task.state(&tasks).is_complete());

    // Join handle should return the result
    let result = block_on_handle(&handle, &mut tasks);
    assert_eq!(result.unwrap(), 42);
}

#[test]
fn test_task_abort() {
    let completed = Arc::new(AtomicBool::new(false));
    let completed_clone = completed.clone();

    let future: BoxFuture<i32> = Box::pin(async move {
        completed_clone.store(true, Ordering::SeqCst);
        42
    });

    let mut tasks: Tasks<BoxFuture<i32>, i32, u64> = Tasks::new();
    let (task, handle) = create_task(&mut tasks, future);

    // Abort the task before running
    handle.abort(&mut tasks);

    // Run the task (should not execute due to abort)
    run_task(&task, &mut tasks);

    // Task should be aborted
    assert!(task.state(&tasks).is_aborted());

    // Future should not have executed
    assert!(!completed.load(Ordering::SeqCst));

    // Join handle should return Aborted error
    let result = block_on_handle(&handle, &mut tasks);
    assert!(matches!(result, Err(JoinError::Aborted)));
}

#[test]
fn test_yield_now() {
    let mut count = 0;
    let mut turns = 0;
    {
        let mut future = Box::pin(async {
            count += 1;
            yielding().await;
            count += 1;
            yielding().await;
            count += 1;
        });

        let waker: Waker = counter().into();
        let mut cx = Context::from_waker(&waker);
        loop {
            turns += 1;
            let polled = match future.as_mut().poll(&mut cx) {
                std::task::Poll::Ready(output) => Poll::Ready(output),
                std::task::Poll::Pending => Poll::Pending,
            };
            match block_on(polled) {
                BlockOnStep::Return(()) => break,
                BlockOnStep::Yield => assert!(turns < 10),
                _ => panic!("neither a result nor a yield"),
            }
        }
    }
    assert_eq!(count, 3);
    assert_eq!(turns, 3);
}

#[test]
fn yield_now_wakes_once() {
    let woken = counter();
    let waker: Waker = woken.clone().into();
    let mut future: BoxFuture<()> = Box::pin(yielding());
    assert_eq!(poll_future(&mut future, &waker), Poll::Pending);
    assert_eq!(woken.wakes.load(Ordering::SeqCst), 1);
    assert_eq!(poll_future(&mut future, &waker), Poll::Ready(()));
    assert_eq!(woken.wakes.load(Ordering::SeqCst), 1);
}

#[test]
fn state_word_fields() {
    let state = TaskState::from_bits(0xABCD_000D);
    assert_eq!(state.bits(), 0xABCD_000D);
    assert_eq!(state.state(), 1);
    assert_eq!(state.flags(), 0xC);
    assert_eq!(state.refcount(), 0xABCD);
    assert!(state.is_scheduled());
    assert!(!state.is_idle());
    assert!(!state.is_running());
    assert!(!state.is_complete());
    assert!(state.is_aborted());
    assert!(state.has_join_interest());
    assert!(TaskState::from_bits(TaskState::RUNNING).is_running());
    assert!(!TaskState::from_bits(TaskState::JOIN_INTEREST).is_aborted());
    assert!(!TaskState::from_bits(TaskState::ABORTED).has_join_interest());
}

#[test]
fn state_word_masks() {
    assert_eq!(TaskState::STATE_MASK, 0x3);
    assert_eq!(TaskState::FLAGS_MASK, 0xFFFC);
    assert_eq!(TaskState::REFCOUNT_SHIFT, 16);
    assert_eq!(TaskState::REFCOUNT_MASK, 0xFFFF0000);
    assert_eq!(TaskState::IDLE, 0);
    assert_eq!(TaskState::SCHEDULED, 1);
    assert_eq!(TaskState::RUNNING, 2);
    assert_eq!(TaskState::COMPLETE, 3);
    assert_eq!(TaskState::ABORTED, 0x4);
    assert_eq!(TaskState::JOIN_INTEREST, 0x8);
    assert_eq!(TaskState::PANICKED, 0x10);
}

#[test]
fn refcount_is_replaced() {
    let state = TaskState::from_bits(0x0007_000E);
    let other = state.with_refcount(0x1_0003);
    assert_eq!(other.bits(), 0x0003_000E);
    assert_eq!(other.refcount(), 3);
    assert_eq!(other.state(), state.state());
    assert_eq!(other.flags(), state.flags());
    assert_eq!(state.with_state(TaskState::RUNNING).bits(), 0x0007_000E);
    assert_eq!(state.with_state(TaskState::IDLE).bits(), 0x0007_000C);
}

#[test]
fn flags_are_set_and_cleared() {
    let flag = TaskState::from_bits(TaskState::JOIN_INTEREST);
    let state = TaskState::from_bits(0x2_0005);
    let set = state.with_flag(flag);
    assert_eq!(set.bits(), 0x2_000D);
    assert_eq!(set.without_flag(flag), state);
    assert_eq!(state.without_flag(flag), state);
    assert_eq!(set.with_flag(flag), set);
}

#[test]
fn new_task_has_one_reference() {
    let mut tasks: Tasks<u8, u32, u64> = Tasks::new();
    let (first, key) = create_raw_task(&mut tasks, 7, SchedulerData { shared: Some(3), thread: None });
    assert_eq!(first.into_raw(), key);
    assert_eq!(key, 0);
    let (second, handle) = create_task(&mut tasks, 8);
    assert_eq!(second.header, 1);
    assert_eq!(handle.header(), 1);
    assert_eq!(second.state(&tasks).bits(), 0x1_0000);
    assert_eq!(tasks.get(0).future, Some(7));
    assert_eq!(tasks.get(0).scheduler, Some(SchedulerData { shared: Some(3), thread: None }));
    assert_eq!(tasks.get(1).scheduler, Some(SchedulerData { shared: None, thread: None }));
    assert!(!tasks.contains(2));
    assert!(!tasks.is_full());
}

#[test]
fn poll_gives_back_the_reference_that_it_takes() {
    let mut tasks: Tasks<u8, u32, u64> = Tasks::new();
    let (task, handle) = create_task(&mut tasks, 7);
    assert!(matches!(task.run(&mut tasks), RunStep::Poll(7)));
    assert_eq!(task.state(&tasks).bits(), 0x2_0002);
    assert_eq!(task.finish_run(&mut tasks, None, 7, Poll::Pending).wake, None);
    assert_eq!(task.state(&tasks).bits(), 0x1_0000);
    assert!(task.state(&tasks).is_idle());
    assert!(!handle.is_finished(&tasks));
}

#[test]
fn future_is_polled_by_one_run_at_a_time() {
    let mut tasks: Tasks<u8, u32, u64> = Tasks::new();
    let (task, _handle) = create_task(&mut tasks, 7);
    assert!(matches!(task.run(&mut tasks), RunStep::Poll(7)));
    assert!(matches!(task.run(&mut tasks), RunStep::Busy));
    task.finish_run(&mut tasks, None, 7, Poll::Pending);
    assert!(matches!(task.run(&mut tasks), RunStep::Poll(7)));
}

#[test]
fn output_is_handed_out_once() {
    let mut tasks: Tasks<u8, u32, u64> = Tasks::new();
    let (task, handle) = create_task(&mut tasks, 7);
    task.run(&mut tasks);
    task.finish_run(&mut tasks, None, 7, Poll::Ready(11));
    assert_eq!(task.state(&tasks).bits(), 0x1_0003);
    assert!(handle.is_finished(&tasks));
    assert_eq!(handle.poll(&mut tasks, 0), Poll::Ready(Ok(11)));
    assert_eq!(handle.poll(&mut tasks, 0), Poll::Ready(Err(JoinError::AlreadyTaken)));
}

#[test]
fn output_survives_many_pending_polls() {
    let mut tasks: Tasks<u8, u32, u64> = Tasks::new();
    let (task, handle) = create_task(&mut tasks, 7);
    for _ in 0..5 {
        task.run(&mut tasks);
        task.finish_run(&mut tasks, None, 7, Poll::Pending);
    }
    task.run(&mut tasks);
    task.finish_run(&mut tasks, None, 7, Poll::Ready(11));
    assert_eq!(handle.poll(&mut tasks, 0), Poll::Ready(Ok(11)));
}

#[test]
fn completed_task_stays_complete() {
    let mut tasks: Tasks<u8, u32, u64> = Tasks::new();
    let (task, handle) = create_task(&mut tasks, 7);
    task.run(&mut tasks);
    task.finish_run(&mut tasks, None, 7, Poll::Ready(11));
    assert!(matches!(task.run(&mut tasks), RunStep::Complete));
    handle.abort(&mut tasks);
    assert!(handle.is_finished(&tasks));
    assert!(matches!(task.run(&mut tasks), RunStep::Aborted));
    assert!(handle.is_finished(&tasks));
}

#[test]
fn abort_after_completion_takes_nothing() {
    let mut tasks: Tasks<u8, u32, u64> = Tasks::new();
    let (task, handle) = create_task(&mut tasks, 7);
    task.run(&mut tasks);
    task.finish_run(&mut tasks, None, 7, Poll::Ready(42));
    handle.abort(&mut tasks);
    assert!(task.state(&tasks).is_aborted());
    assert_eq!(handle.poll(&mut tasks, 0), Poll::Ready(Ok(42)));
    assert_eq!(handle.poll(&mut tasks, 0), Poll::Ready(Err(JoinError::AlreadyTaken)));
}

#[test]
fn abort_during_a_poll_is_final() {
    let mut tasks: Tasks<u8, u32, u64> = Tasks::new();
    let (task, handle) = create_task(&mut tasks, 7);
    task.run(&mut tasks);
    handle.abort(&mut tasks);
    task.finish_run(&mut tasks, None, 7, Poll::Ready(42));
    assert_eq!(task.state(&tasks).bits(), 0x1_0007);
    assert_eq!(tasks.get(task.header).output, Some(42));
    assert!(handle.is_finished(&tasks));
    assert_eq!(handle.poll(&mut tasks, 0), Poll::Ready(Err(JoinError::Aborted)));
    assert_eq!(handle.poll(&mut tasks, 0), Poll::Ready(Err(JoinError::Aborted)));
    assert!(matches!(task.run(&mut tasks), RunStep::Aborted));
    handle.drop(&mut tasks);
    assert!(!tasks.contains(task.header));
}

#[test]
fn abort_during_a_poll_that_panics_is_final() {
    let mut tasks: Tasks<u8, u32, u64> = Tasks::new();
    let (task, handle) = create_task(&mut tasks, 7);
    task.run(&mut tasks);
    handle.abort(&mut tasks);
    task.finish_panicked(&mut tasks);
    assert!(handle.is_finished(&tasks));
    assert_eq!(handle.poll(&mut tasks, 0), Poll::Ready(Err(JoinError::Aborted)));
}

#[test]
fn panic_reaches_the_join_handle() {
    let mut tasks: Tasks<u8, u32, u64> = Tasks::new();
    let (task, handle) = create_task(&mut tasks, 7);
    handle.poll(&mut tasks, 77);
    task.run(&mut tasks);
    assert_eq!(task.finish_panicked(&mut tasks), Some(77));
    assert_eq!(task.state(&tasks).bits(), 0x1_001B);
    assert!(task.state(&tasks).has_panicked());
    assert!(handle.is_finished(&tasks));
    assert!(matches!(task.run(&mut tasks), RunStep::Complete));
    assert_eq!(handle.poll(&mut tasks, 0), Poll::Ready(Err(JoinError::Panic)));
    assert_eq!(handle.poll(&mut tasks, 0), Poll::Ready(Err(JoinError::Panic)));
    handle.drop(&mut tasks);
    assert!(!tasks.contains(task.header));
}

#[test]
fn task_that_yields_twice_completes() {
    let mut tasks: Tasks<BoxFuture<u32>, u32, u64> = Tasks::new();
    let future: BoxFuture<u32> = Box::pin(async {
        yielding().await;
        yielding().await;
        7
    });
    let (task, handle) = create_task(&mut tasks, future);
    let mut runs = 0;
    let mut queued = true;
    while queued {
        runs += 1;
        match task.run(&mut tasks) {
            RunStep::Poll(mut future) => {
                let woken = counter();
                let waker: Waker = woken.clone().into();
                let polled = poll_future(&mut future, &waker);
                if woken.wakes.load(Ordering::SeqCst) > 0 {
                    assert_eq!(wake_task(&mut tasks, task.header, Some(2)), None);
                }
                let end = task.finish_run(&mut tasks, Some(2), future, polled);
                queued = end.schedule == Some(Schedule::Push(2));
            }
            _ => panic!("the task is pending"),
        }
    }
    assert_eq!(runs, 3);
    assert_eq!(handle.poll(&mut tasks, 0), Poll::Ready(Ok(7)));
}

#[test]
fn join_waker_is_woken_by_completion() {
    let mut tasks: Tasks<u8, u32, u64> = Tasks::new();
    let (task, handle) = create_task(&mut tasks, 7);
    assert_eq!(handle.poll(&mut tasks, 77), Poll::Pending);
    assert_eq!(task.state(&tasks).bits(), 0x1_0008);
    task.run(&mut tasks);
    assert_eq!(task.finish_run(&mut tasks, None, 7, Poll::Pending).wake, None);
    task.run(&mut tasks);
    assert_eq!(task.finish_run(&mut tasks, None, 7, Poll::Ready(1)).wake, Some(77));
    retain_task(&mut tasks, task.header);
    handle.drop(&mut tasks);
    assert_eq!(task.state(&tasks).bits(), 0x1_0003);
}

#[test]
fn join_waker_is_woken_by_abort() {
    let mut tasks: Tasks<u8, u32, u64> = Tasks::new();
    let (task, handle) = create_task(&mut tasks, 7);
    assert_eq!(handle.poll(&mut tasks, 77), Poll::Pending);
    assert_eq!(handle.abort(&mut tasks), Some(77));
    assert_eq!(handle.abort(&mut tasks), None);
    assert_eq!(task.state(&tasks).bits(), 0x1_000C);
}

#[test]
fn dropped_handle_of_a_pending_task_leaves_its_waker() {
    let mut tasks: Tasks<u8, u32, u64> = Tasks::new();
    let (task, handle) = create_task(&mut tasks, 7);
    handle.poll(&mut tasks, 77);
    handle.drop(&mut tasks);
    assert!(task.state(&tasks).has_join_interest());
    assert_eq!(tasks.get(task.header).join_waker, Some(77));
}

#[test]
fn join_waker_on_a_header() {
    let mut header = header_with(0x1_0002);
    assert!(!set_join_waker(&mut header, 5));
    assert_eq!(header.state.bits(), 0x1_000A);
    assert_eq!(header.join_waker, Some(5));
    let mut done = header_with(0x1_0003);
    assert!(set_join_waker(&mut done, 6));
    let mut scheduled = header_with(0x1_0001);
    assert!(!set_join_waker(&mut scheduled, 6));
}

#[test]
fn late_waker_loses_no_result() {
    let mut pending = header_with(0x1_0001);
    assert_eq!(register_interest(&mut pending, 5), Poll::Pending);
    assert_eq!(pending.state.bits(), 0x1_0009);
    assert_eq!(pending.join_waker, Some(5));

    let mut done = header_with(0x1_0003);
    done.output = Some(9);
    assert_eq!(register_interest(&mut done, 5), Poll::Ready(Ok(9)));
    assert_eq!(done.state.bits(), 0x1_000B);
    assert_eq!(take_result(&mut done), Poll::Ready(Err(JoinError::AlreadyTaken)));

    let mut panicked = header_with(0x1_0013);
    assert_eq!(take_result(&mut panicked), Poll::Ready(Err(JoinError::Panic)));
}

#[test]
fn output_on_a_header() {
    let mut header = header_with(0x1_0003);
    header.output = Some(9);
    assert_eq!(try_read_output(&mut header), Some(9));
    assert_eq!(try_read_output(&mut header), None);

    let mut late = header_with(0x1_0007);
    late.output = Some(9);
    assert_eq!(try_read_output(&mut late), Some(9));

    let mut stopped = header_with(0x1_0007);
    stopped.output = Some(9);
    stopped.stopped = true;
    assert_eq!(try_read_output(&mut stopped), None);
    assert_eq!(stopped.output, Some(9));

    let mut scheduled = header_with(0x1_0001);
    scheduled.output = Some(9);
    assert_eq!(try_read_output(&mut scheduled), None);
}

#[test]
fn abort_on_a_header() {
    let mut header = header_with(0x1_0001);
    header.join_waker = Some(5);
    assert_eq!(abort_task(&mut header), None);
    assert_eq!(header.state.bits(), 0x1_0005);
    assert_eq!(header.join_waker, Some(5));
}

#[test]
fn task_state_transitions() {
    let mut tasks: Tasks<u8, u32, u64> = Tasks::new();
    let (task, _handle) = create_task(&mut tasks, 7);
    let idle = TaskState::from_bits(0x1_0000);
    let running = TaskState::from_bits(0x1_0002);
    assert!(task.transition_state(&mut tasks, idle, running));
    assert_eq!(task.state(&tasks), running);
    assert!(!task.transition_state(&mut tasks, idle, running));
    task.set_state(&mut tasks, idle);
    assert_eq!(task.state(&tasks), idle);
}

#[test]
fn task_goes_to_its_runtime_or_the_current_one() {
    let mut tasks: Tasks<u8, u32, u64> = Tasks::new();
    let (own, _a) = create_task_with_shared(&mut tasks, 7, 4);
    let (any, _b) = create_task(&mut tasks, 7);
    assert_eq!(own.schedule(&tasks, Some(9)), Schedule::Push(4));
    assert_eq!(own.schedule(&tasks, None), Schedule::Push(4));
    assert_eq!(any.schedule(&tasks, Some(9)), Schedule::Push(9));
    assert_eq!(any.schedule(&tasks, None), Schedule::Run);
    let (local, _c) = create_local_task(&mut tasks, 7, 6);
    assert_eq!(local.schedule(&tasks, Some(9)), Schedule::Local(6));
    assert_eq!(local.schedule(&tasks, None), Schedule::Local(6));
    let bare = Task::from_raw(tasks.insert(header_with(0)));
    assert_eq!(bare.schedule(&tasks, Some(9)), Schedule::Run);
}

#[test]
fn layout_of_a_task() {
    let header = Layout { size: 48, align: 8 };
    let future = Layout { size: 3, align: 1 };
    let output = Layout { size: 32, align: 16 };
    assert_eq!(
        VTableFor::<u8, u32>::task_layout(header, future, output),
        Some(Layout { size: 83, align: 16 })
    );
    let most = Layout { size: isize::MAX as usize - 7, align: 8 };
    let nothing = Layout { size: 0, align: 1 };
    let one = Layout { size: 1, align: 1 };
    assert_eq!(VTableFor::<u8, u32>::task_layout(most, nothing, nothing), Some(most));
    assert_eq!(VTableFor::<u8, u32>::task_layout(most, one, nothing), None);
    assert_eq!(VTableFor::<u8, u32>::task_layout(one, nothing, most), None);
}

#[test]
fn block_on_returns_or_yields() {
    assert!(matches!(block_on(Poll::Ready(5)), BlockOnStep::Return(5)));
    assert!(matches!(block_on::<u8>(Poll::Pending), BlockOnStep::Yield));
}

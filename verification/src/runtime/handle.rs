//! Handles to a runtime.

use crate::runtime::scheduler::multi_thread::{BlockOnStep, CurrentContext, Notice, Shared};
use crate::task::raw::{
    fresh_header, schedule_of, Header, Poll, Schedule, SchedulerData, Task, Tasks,
};
use crate::task::waker::{after_wake, wake_task, wakeable};
use crate::task::{create_task, JoinHandle};
use crossbeam::deque::Injector;
use vstd::prelude::*;

verus! {

/// Handle to the runtime.
///
/// Used to spawn tasks onto the runtime from outside it. What the handle refers
/// to by number is passed along where it is needed.
#[derive(Debug, Clone, Copy, PartialEq, Eq, Structural)]
pub struct Handle {
    /// The number of the shared runtime state.
    pub shared: u64,
    /// Whether the handle belongs to a current-thread scheduler, which has a
    /// shutdown flag of its own.
    pub local: bool,
}

/// Reference to a worker thread.
#[derive(Debug, Clone, Copy, PartialEq, Eq, Structural)]
pub enum WorkerRef {
    /// A thread on which the runtime of the handle is current.
    MultiThread,
    /// A thread on which another runtime is current.
    Other,
}

/// How a handle blocks on a future.
#[derive(Debug, Clone, Copy, PartialEq, Eq, Structural)]
pub enum BlockOnMode {
    /// With the worker that the thread is: see [`Handle::block_on_with_worker`].
    WithWorker(WorkerRef),
    /// Without one: see [`Handle::block_on_simple`].
    Simple,
}

/// The state that a thread which blocks on a future shares with the wakers of
/// the future.
pub struct BlockOnState<W> {
    /// The waker to pass a wake-up on to.
    pub waker: Option<W>,
}

impl<W> BlockOnState<W> {
    /// There is nobody to pass a wake-up on to.
    pub fn new() -> (r: Self)
        ensures
            r.waker is None,
    {
        BlockOnState { waker: None }
    }

    /// A waker is woken. Returns the waker to pass it on to.
    pub fn wake(&mut self) -> (wake: Option<W>)
        ensures
            final(self).waker is None,
            wake == old(self).waker,
    {
        self.wake_by_ref()
    }

    /// A waker is woken by reference. Returns the waker to pass it on to.
    pub fn wake_by_ref(&mut self) -> (wake: Option<W>)
        ensures
            final(self).waker is None,
            wake == old(self).waker,
    {
        self.waker.take()
    }
}

/// How many tasks are processed at once while a future is pending.
pub const TASKS_AT_ONCE: usize = 10;

impl Handle {
    /// What is current after the handle was entered, and the guard.
    pub open spec fn enters(self, current: CurrentContext) -> (CurrentContext, EnterGuard) {
        (
            CurrentContext { context: Some(self.shared), ..current },
            EnterGuard { handle: self, previous: current.context },
        )
    }

    /// The worker that a thread is for this handle.
    pub open spec fn worker_on(self, current: CurrentContext) -> Option<WorkerRef> {
        match current.context {
            Some(context) => Some(
                if context == self.shared {
                    WorkerRef::MultiThread
                } else {
                    WorkerRef::Other
                },
            ),
            None => None,
        }
    }

    /// The handle of the runtime that is current on a thread.
    pub open spec fn current_on(current: CurrentContext) -> Option<Handle> {
        match current.context {
            Some(shared) => Some(Handle { shared, local: false }),
            None => None,
        }
    }

    /// Spawn a new task onto the runtime. Returns its join handle and whom to
    /// tell.
    pub fn spawn<F, T, W>(
        &self,
        shared: &mut Shared,
        tasks: &mut Tasks<F, T, W>,
        future: F,
    ) -> (r: (JoinHandle<T>, Notice))
        requires
            old(shared).wf(),
            old(shared).id == self.shared,
            old(tasks).wf(),
            old(tasks).next_key() < u64::MAX,
        ensures
            final(shared).wf(),
            final(shared).same_but_queues(*old(shared)),
            final(shared).locals() == old(shared).locals(),
            final(shared).refusals@ == old(shared).refusals@,
            final(shared).queue() == old(shared).queue().push(r.0.target()),
            r.1 == old(shared).notice(),
            final(tasks).wf(),
            r.0.target() == old(tasks).next_key(),
            final(tasks).next_key() == r.0.target() + 1,
            final(tasks)@ == old(tasks)@.insert(
                r.0.target(),
                fresh_header(future, SchedulerData { shared: None, thread: None }),
            ),
    {
        let (task, join) = create_task(tasks, future);
        let notice = self.spawn_task(shared, task);
        (join, notice)
    }

    /// Spawn a task that doesn't return a join handle. Returns whom to tell.
    ///
    /// Useful for fire-and-forget tasks.
    pub fn spawn_background<F, W>(
        &self,
        shared: &mut Shared,
        tasks: &mut Tasks<F, (), W>,
        future: F,
    ) -> (notice: Notice)
        requires
            old(shared).wf(),
            old(shared).id == self.shared,
            old(tasks).wf(),
            old(tasks).next_key() < u64::MAX,
        ensures
            final(shared).wf(),
            final(shared).same_but_queues(*old(shared)),
            final(shared).locals() == old(shared).locals(),
            final(shared).refusals@ == old(shared).refusals@,
            final(shared).queue() == old(shared).queue().push(old(tasks).next_key()),
            notice == old(shared).notice(),
            final(tasks).wf(),
            final(tasks).next_key() == old(tasks).next_key() + 1,
            final(tasks)@ == old(tasks)@.insert(
                old(tasks).next_key(),
                (Header {
                    detached: true,
                    ..fresh_header(future, SchedulerData { shared: None, thread: None })
                }),
            ),
    {
        let (task, join) = create_task(tasks, future);
        join.drop(tasks);
        self.spawn_task(shared, task)
    }

    /// Spawn a task that is there already. Returns whom to tell.
    pub fn spawn_task(&self, shared: &mut Shared, task: Task) -> (notice: Notice)
        requires
            old(shared).wf(),
            old(shared).id == self.shared,
        ensures
            final(shared).wf(),
            final(shared).same_but_queues(*old(shared)),
            final(shared).locals() == old(shared).locals(),
            final(shared).refusals@ == old(shared).refusals@,
            final(shared).queue() == old(shared).queue().push(task.header),
            notice == old(shared).notice(),
    {
        shared.push(task);
        shared.notify_worker()
    }

    /// Returns true if the runtime is multi-threaded: if it has workers.
    pub fn is_multi_thread(&self, shared: &Shared) -> (r: bool)
        requires
            shared.id == self.shared,
        ensures
            r == (shared.stealers@.len() > 0),
    {
        shared.stealers.len() > 0
    }

    /// Whether the handle sees that its runtime was shut down.
    pub open spec fn sees_shutdown(self, shared: Shared, local_shutdown: bool) -> bool {
        if self.local {
            local_shutdown
        } else {
            shared.shutdown
        }
    }

    /// Returns true if the runtime has been shut down. `local_shutdown` is the
    /// flag of the current-thread scheduler that the handle belongs to, if it
    /// does.
    pub fn is_shutdown(&self, shared: &Shared, local_shutdown: bool) -> (r: bool)
        requires
            shared.id == self.shared,
        ensures
            r == self.sees_shutdown(*shared, local_shutdown),
    {
        if self.local {
            local_shutdown
        } else {
            shared.shutdown
        }
    }

    /// Get the number of the shared runtime state.
    pub fn shared(&self) -> (r: u64)
        ensures
            r == self.shared,
    {
        self.shared
    }

    /// Get a reference to the global task injector, to look at. Tasks are put into
    /// it with [`Handle::spawn_task`].
    pub fn injector<'a>(&self, shared: &'a Shared) -> (r: &'a Injector<u64>)
        requires
            shared.id == self.shared,
        ensures
            *r == shared.injector,
    {
        &shared.injector
    }

    /// How to block on a future on this thread: with a worker if a runtime is
    /// current, whichever it is.
    pub fn block_on(&self, current: &CurrentContext) -> (mode: BlockOnMode)
        ensures
            mode == (match self.worker_on(*current) {
                Some(worker) => BlockOnMode::WithWorker(worker),
                None => BlockOnMode::Simple,
            }),
            mode == (match current.context {
                Some(context) => BlockOnMode::WithWorker(
                    if context == self.shared {
                        WorkerRef::MultiThread
                    } else {
                        WorkerRef::Other
                    },
                ),
                None => BlockOnMode::Simple,
            }),
    {
        match self.try_get_worker(current) {
            Some(worker) => BlockOnMode::WithWorker(worker),
            None => BlockOnMode::Simple,
        }
    }

    /// Try to get a worker for the current thread.
    pub fn try_get_worker(&self, current: &CurrentContext) -> (worker: Option<WorkerRef>)
        ensures
            worker == self.worker_on(*current),
    {
        match current.current_shared() {
            Some(context) => if context == self.shared {
                Some(WorkerRef::MultiThread)
            } else {
                Some(WorkerRef::Other)
            },
            None => None,
        }
    }

    /// One turn of blocking on a future with a worker available, which does
    /// nothing that a thread without one would not do. `polled` is
    /// what the future gave if it was polled just now, and `None` if a task was
    /// run instead; `processed` counts the tasks that were run since the future
    /// was polled. When the turn yields, the future is to be polled next.
    pub fn block_on_with_worker<T>(
        &self,
        _worker: &WorkerRef,
        shared: &mut Shared,
        polled: Option<Poll<T>>,
        processed: usize,
    ) -> (step: BlockOnStep<T>)
        requires
            old(shared).wf(),
            old(shared).id == self.shared,
        ensures
            final(shared).wf(),
            helped(*old(shared), *final(shared), polled, processed, step),
            polled matches Some(Poll::Ready(output)) ==> {
                &&& step == BlockOnStep::Return(output)
                &&& *final(shared) == *old(shared)
            },
    {
        self.block_on_simple(shared, polled, processed)
    }

    /// One turn of blocking on a future without a worker thread: see
    /// [`Handle::block_on_with_worker`].
    pub fn block_on_simple<T>(
        &self,
        shared: &mut Shared,
        polled: Option<Poll<T>>,
        processed: usize,
    ) -> (step: BlockOnStep<T>)
        requires
            old(shared).wf(),
            old(shared).id == self.shared,
        ensures
            final(shared).wf(),
            helped(*old(shared), *final(shared), polled, processed, step),
            polled matches Some(Poll::Ready(output)) ==> {
                &&& step == BlockOnStep::Return(output)
                &&& *final(shared) == *old(shared)
            },
    {
        if let Some(Poll::Ready(output)) = polled {
            return BlockOnStep::Return(output);
        }
        let found = self.process_some_tasks(shared, processed);
        help_or_yield(found)
    }

    /// Process some available tasks: the next one to run from the shared queue,
    /// unless enough were processed.
    pub fn process_some_tasks(&self, shared: &mut Shared, processed: usize) -> (task: Option<Task>)
        requires
            old(shared).wf(),
            old(shared).id == self.shared,
        ensures
            final(shared).wf(),
            processed < TASKS_AT_ONCE ==> old(shared).injector_gave(*final(shared), task),
            processed >= TASKS_AT_ONCE ==> task is None && *final(shared) == *old(shared),
    {
        if processed < TASKS_AT_ONCE {
            shared.steal()
        } else {
            None
        }
    }

    /// Enter the runtime context.
    ///
    /// This is used to mark that code is running within the runtime,
    /// which enables spawning tasks without an explicit handle.
    pub fn enter(&self, current: &mut CurrentContext) -> (guard: EnterGuard)
        ensures
            (*final(current), guard) == self.enters(*old(current)),
    {
        let previous = current.context;
        current.context = Some(self.shared);
        EnterGuard { handle: *self, previous }
    }

    /// Get the current runtime handle of a thread.
    ///
    /// Returns `None` if called outside of a runtime context.
    pub fn current(current: &CurrentContext) -> (handle: Option<Handle>)
        ensures
            handle == Self::current_on(*current),
            current.context is None ==> handle is None,
            current.context is Some ==> handle == Some(
                Handle { shared: current.context->0, local: false },
            ),
    {
        match current.current_shared() {
            Some(shared) => Some(Handle { shared, local: false }),
            None => None,
        }
    }
}

/// What a thread does that blocks on a pending future and looked for a task: run
/// the one that it found, and else yield.
pub fn help_or_yield<T>(found: Option<Task>) -> (step: BlockOnStep<T>)
    ensures
        step == (match found {
            Some(task) => BlockOnStep::<T>::Run(task),
            None => BlockOnStep::<T>::Yield,
        }),
{
    match found {
        Some(task) => BlockOnStep::Run(task),
        None => BlockOnStep::Yield,
    }
}

/// One turn of blocking on a future with the help of a handle: return the output
/// if there is one; else run a task from the shared queue if one can be had
/// and not enough were run; else yield.
pub open spec fn helped<T>(
    before: Shared,
    after: Shared,
    polled: Option<Poll<T>>,
    processed: usize,
    step: BlockOnStep<T>,
) -> bool {
    match polled {
        Some(Poll::Ready(output)) => {
            &&& step == BlockOnStep::Return(output)
            &&& after == before
        },
        _ => match step {
            BlockOnStep::Run(task) => {
                &&& processed < TASKS_AT_ONCE
                &&& before.injector_gave(after, Some(task))
            },
            BlockOnStep::Yield => if processed < TASKS_AT_ONCE {
                before.injector_gave(after, None)
            } else {
                after == before
            },
            _ => false,
        },
    }
}

/// Guard that ensures the runtime context is restored when dropped.
#[derive(Debug, Clone, Copy, PartialEq, Eq, Structural)]
pub struct EnterGuard {
    pub handle: Handle,
    pub previous: Option<u64>,
}

impl EnterGuard {
    /// What is current after the guard was dropped.
    pub open spec fn left(self, current: CurrentContext) -> CurrentContext {
        CurrentContext { context: self.previous, ..current }
    }

    /// Put back the runtime that was current before.
    pub fn drop(self, current: &mut CurrentContext)
        ensures
            *final(current) == self.left(*old(current)),
    {
        current.context = self.previous;
    }

    /// The handle that was entered.
    pub fn deref(&self) -> (r: &Handle)
        ensures
            *r == self.handle,
    {
        &self.handle
    }
}

/// What came of waking a task.
#[derive(Debug, Clone, Copy, PartialEq, Eq, Structural)]
pub enum Woken {
    /// Nothing more: the task waits already, or is being polled and remembers it, or
    /// it is complete or aborted.
    Nothing,
    /// The task has to be run on this thread.
    Run(Task),
    /// The task is in the queue, and this is whom to tell.
    Queued(Notice),
    /// The task has to go to the queue of another runtime.
    Elsewhere(u64),
    /// The task has to go to the queue of this thread.
    Local(u64),
}

/// What comes of scheduling a task, for a thread that has this shared state.
pub open spec fn scheduled(task: Task, to: Schedule, shared: Shared) -> Woken {
    match to {
        Schedule::Run => Woken::Run(task),
        Schedule::Local(thread) => Woken::Local(thread),
        Schedule::Push(id) => if id == shared.id {
            Woken::Queued(shared.notice())
        } else {
            Woken::Elsewhere(id)
        },
    }
}

/// Whether bringing a task where it has to go led from `before` to `after`, with this
/// left to do.
pub open spec fn puts(task: Task, to: Schedule, before: Shared, after: Shared, r: Woken) -> bool {
    &&& after.same_but_queues(before)
    &&& after.locals() == before.locals()
    &&& after.refusals@ == before.refusals@
    &&& after.queue() == (if r is Queued {
        before.queue().push(task.header)
    } else {
        before.queue()
    })
    &&& r == scheduled(task, to, before)
}

/// Whether a wake-up of the task with this key and this header, on a thread with this
/// runtime current, led from `before` to `after`, with this left to do.
pub open spec fn wakes<F, T, W>(
    key: u64,
    header: Header<F, T, W>,
    current: Option<u64>,
    before: Shared,
    after: Shared,
    r: Woken,
) -> bool {
    if wakeable(header.state.bits) {
        puts(Task { header: key }, schedule_of(header.scheduler, current), before, after, r)
    } else {
        &&& r is Nothing
        &&& after.alike(before)
    }
}

/// Bring a task where it has to go, if that is the shared queue, and say what is
/// left to do.
pub fn put_scheduled(task: Task, to: Schedule, shared: &mut Shared) -> (r: Woken)
    requires
        old(shared).wf(),
    ensures
        final(shared).wf(),
        final(shared).same_but_queues(*old(shared)),
        final(shared).locals() == old(shared).locals(),
        final(shared).refusals@ == old(shared).refusals@,
        final(shared).queue() == (if to == Schedule::Push(old(shared).id) {
            old(shared).queue().push(task.header)
        } else {
            old(shared).queue()
        }),
        r is Queued <==> to == Schedule::Push(old(shared).id),
        !(r is Nothing),
        r == scheduled(task, to, *old(shared)),
        puts(task, to, *old(shared), *final(shared), r),
{
    match to {
        Schedule::Run => Woken::Run(task),
        Schedule::Local(thread) => Woken::Local(thread),
        Schedule::Push(id) => if id == shared.id {
            shared.push(task);
            Woken::Queued(shared.notify_worker())
        } else {
            Woken::Elsewhere(id)
        },
    }
}

/// Wake a task, and push it to the shared queue if that is where it goes.
pub fn wake_and_schedule<F, T, W>(
    tasks: &mut Tasks<F, T, W>,
    header: u64,
    current: &CurrentContext,
    shared: &mut Shared,
) -> (r: Woken)
    requires
        old(tasks).wf(),
        old(tasks)@.contains_key(header),
        old(shared).wf(),
    ensures
        final(tasks).wf(),
        final(tasks).next_key() == old(tasks).next_key(),
        final(tasks)@ == old(tasks)@.insert(header, after_wake(old(tasks)@[header])),
        final(shared).wf(),
        final(shared).same_but_queues(*old(shared)),
        final(shared).locals() == old(shared).locals(),
        final(shared).refusals@ == old(shared).refusals@,
        final(shared).queue() == (if wakeable(old(tasks)@[header].state.bits) && schedule_of(
            old(tasks)@[header].scheduler,
            current.context,
        ) == Schedule::Push(old(shared).id) {
            old(shared).queue().push(header)
        } else {
            old(shared).queue()
        }),
        r is Nothing <==> !wakeable(old(tasks)@[header].state.bits),
        r == (if wakeable(old(tasks)@[header].state.bits) {
            scheduled(
                Task { header },
                schedule_of(old(tasks)@[header].scheduler, current.context),
                *old(shared),
            )
        } else {
            Woken::Nothing
        }),
        wakes(
            header,
            old(tasks)@[header],
            current.context,
            *old(shared),
            *final(shared),
            r,
        ),
{
    match wake_task(tasks, header, current.current_shared()) {
        None => Woken::Nothing,
        Some(to) => put_scheduled(Task::from_raw(header), to, shared),
    }
}

/// Spawn a task onto the runtime that is current on the thread. Returns its join
/// handle and whom to tell.
pub fn spawn<F, T, W>(
    current: &CurrentContext,
    shared: &mut Shared,
    tasks: &mut Tasks<F, T, W>,
    future: F,
) -> (r: (JoinHandle<T>, Notice))
    requires
        current.context == Some(old(shared).id),
        old(shared).wf(),
        old(tasks).wf(),
        old(tasks).next_key() < u64::MAX,
    ensures
        final(shared).wf(),
        final(shared).same_but_queues(*old(shared)),
        final(shared).locals() == old(shared).locals(),
        final(shared).refusals@ == old(shared).refusals@,
        final(shared).queue() == old(shared).queue().push(r.0.target()),
        r.1 == old(shared).notice(),
        final(tasks).wf(),
        r.0.target() == old(tasks).next_key(),
        final(tasks).next_key() == r.0.target() + 1,
        final(tasks)@ == old(tasks)@.insert(
            r.0.target(),
            fresh_header(future, SchedulerData { shared: None, thread: None }),
        ),
{
    let handle = Handle::current(current).unwrap();
    handle.spawn(shared, tasks, future)
}

/// Extension trait for easier spawning.
pub trait RuntimeExt {
    /// The number of the shared runtime state that tasks go to.
    spec fn runtime(&self) -> u64;

    /// Spawn a task from a future that returns `()`. Returns whom to tell.
    fn spawn<F, W>(&self, shared: &mut Shared, tasks: &mut Tasks<F, (), W>, future: F) -> (notice:
        Notice)
        requires
            old(shared).wf(),
            old(shared).id == self.runtime(),
            old(tasks).wf(),
            old(tasks).next_key() < u64::MAX,
        ensures
            final(shared).wf(),
            final(shared).same_but_queues(*old(shared)),
            final(shared).locals() == old(shared).locals(),
            final(shared).refusals@ == old(shared).refusals@,
            final(shared).queue() == old(shared).queue().push(old(tasks).next_key()),
            notice == old(shared).notice(),
            final(tasks).wf(),
            final(tasks).next_key() == old(tasks).next_key() + 1,
            final(tasks)@ == old(tasks)@.insert(
                old(tasks).next_key(),
                (Header {
                    detached: true,
                    ..fresh_header(future, SchedulerData { shared: None, thread: None })
                }),
            ),
    ;

    /// Spawn a task and get a join handle, and whom to tell.
    fn spawn_join<F, T, W>(
        &self,
        shared: &mut Shared,
        tasks: &mut Tasks<F, T, W>,
        future: F,
    ) -> (r: (JoinHandle<T>, Notice))
        requires
            old(shared).wf(),
            old(shared).id == self.runtime(),
            old(tasks).wf(),
            old(tasks).next_key() < u64::MAX,
        ensures
            final(shared).wf(),
            final(shared).same_but_queues(*old(shared)),
            final(shared).locals() == old(shared).locals(),
            final(shared).refusals@ == old(shared).refusals@,
            final(shared).queue() == old(shared).queue().push(r.0.target()),
            r.1 == old(shared).notice(),
            final(tasks).wf(),
            r.0.target() == old(tasks).next_key(),
            final(tasks).next_key() == r.0.target() + 1,
            final(tasks)@ == old(tasks)@.insert(
                r.0.target(),
                fresh_header(future, SchedulerData { shared: None, thread: None }),
            ),
    ;
}

impl RuntimeExt for Handle {
    open spec fn runtime(&self) -> u64 {
        self.shared
    }

    fn spawn<F, W>(&self, shared: &mut Shared, tasks: &mut Tasks<F, (), W>, future: F) -> (notice:
        Notice) {
        self.spawn_background(shared, tasks, future)
    }

    fn spawn_join<F, T, W>(
        &self,
        shared: &mut Shared,
        tasks: &mut Tasks<F, T, W>,
        future: F,
    ) -> (r: (JoinHandle<T>, Notice)) {
        self.spawn(shared, tasks, future)
    }
}

} // verus!

//! Tasks, their join handles and their wakers.

pub mod laws;
pub mod raw;
pub mod state;
pub mod steps;
pub mod waker;

pub use raw::{Poll, Task, Tasks};
pub use state::TaskState;
pub use waker::waker_from_task;

use crate::runtime::handle::Handle;
use crate::runtime::scheduler::current_thread::LocalQueue;
use crate::runtime::scheduler::multi_thread::{BlockOnStep, CurrentContext, Notice, Shared};
use crate::task::raw::{
    abort_task, create_raw_task, fresh_header, set_join_waker, try_read_output, Header,
    SchedulerData, VTableFor,
};
use crate::task::state::{lemma_join_word, lemma_unjoined_word};
use crate::task::waker::drop_waker;
use std::future::Future;
use std::marker::PhantomData;
use vstd::prelude::*;

verus! {

/// Why a task gave no output.
#[derive(Debug, Clone, Copy, PartialEq, Eq, Structural)]
pub enum JoinError {
    /// The task was aborted before completion.
    Aborted,
    /// The task panicked during execution.
    Panic,
    /// The task's output was already taken by another join handle.
    AlreadyTaken,
}

/// What a join handle gets from a task. An abort that came after completion takes
/// nothing away; after one that came before, there is nothing else to get.
pub open spec fn join_result<F, T, W>(header: Header<F, T, W>) -> Poll<Result<T, JoinError>> {
    if header.complete() && header.stopped {
        Poll::Ready(Err(JoinError::Aborted))
    } else if header.complete() {
        match header.output {
            Some(output) => Poll::Ready(Ok(output)),
            None => if header.panicked() {
                Poll::Ready(Err(JoinError::Panic))
            } else {
                Poll::Ready(Err(JoinError::AlreadyTaken))
            },
        }
    } else if header.aborted() {
        Poll::Ready(Err(JoinError::Aborted))
    } else {
        Poll::Pending
    }
}

/// The header of a task after a join handle with this waker was polled.
pub open spec fn after_join_poll<F, T, W>(header: Header<F, T, W>, waker: W) -> Header<F, T, W> {
    if header.complete() || header.aborted() {
        header.after_read()
    } else {
        header.after_join(waker)
    }
}

/// Take the result of a completed task.
pub fn take_result<F, T, W>(header: &mut Header<F, T, W>) -> (polled: Poll<Result<T, JoinError>>)
    requires
        old(header).complete(),
    ensures
        *final(header) == old(header).after_read(),
        polled == join_result(*old(header)),
{
    let state = header.state;
    match try_read_output(header) {
        Some(output) => Poll::Ready(Ok(output)),
        None => {
            if header.stopped {
                Poll::Ready(Err(JoinError::Aborted))
            } else if state.has_panicked() {
                Poll::Ready(Err(JoinError::Panic))
            } else {
                Poll::Ready(Err(JoinError::AlreadyTaken))
            }
        },
    }
}

/// Leave a waker with a task that had no result when it was looked at. If the
/// task has completed since then, its result is taken after all.
pub fn register_interest<F, T, W>(header: &mut Header<F, T, W>, waker: W) -> (polled: Poll<
    Result<T, JoinError>,
>)
    ensures
        old(header).complete() ==> {
            &&& polled == join_result(*old(header))
            &&& *final(header) == old(header).after_join(waker).after_read()
        },
        !old(header).complete() ==> {
            &&& polled is Pending
            &&& *final(header) == old(header).after_join(waker)
        },
{
    proof {
        lemma_join_word(header.state.bits);
    }
    if set_join_waker(header, waker) {
        take_result(header)
    } else {
        Poll::Pending
    }
}

/// A handle that can be used to await the result of a spawned task.
pub struct JoinHandle<T> {
    header: u64,
    _marker: PhantomData<T>,
}

impl<T> JoinHandle<T> {
    /// The key of the header of the task.
    pub closed spec fn target(self) -> u64 {
        self.header
    }

    /// A join handle for the task with this header.
    pub fn new(header: u64) -> (handle: Self)
        ensures
            handle.target() == header,
    {
        JoinHandle { header, _marker: PhantomData }
    }

    /// The key of the header of the task.
    pub fn header(&self) -> (header: u64)
        ensures
            header == self.target(),
    {
        self.header
    }

    /// Abort the task, preventing it from executing further. Returns the join
    /// waker to wake.
    pub fn abort<F, W>(&self, tasks: &mut Tasks<F, T, W>) -> (wake: Option<W>)
        requires
            old(tasks).wf(),
            old(tasks)@.contains_key(self.target()),
        ensures
            final(tasks).wf(),
            final(tasks).next_key() == old(tasks).next_key(),
            final(tasks)@ == old(tasks)@.insert(
                self.target(),
                old(tasks)@[self.target()].after_abort(),
            ),
            wake == old(tasks)@[self.target()].abort_wakes(),
    {
        let mut header = tasks.remove(self.header);
        let wake = abort_task(&mut header);
        tasks.restore(self.header, header);
        assert(tasks@ =~= old(tasks)@.insert(self.header, header));
        wake
    }

    /// Returns true if the task has completed.
    pub fn is_finished<F, W>(&self, tasks: &Tasks<F, T, W>) -> (r: bool)
        requires
            tasks@.contains_key(self.target()),
        ensures
            r == tasks@[self.target()].complete(),
    {
        tasks.get(self.header).state.is_complete()
    }

    /// Poll for the result of the task. While there is none, `waker` is left
    /// with the task, which wakes it when it completes or is aborted.
    pub fn poll<F, W>(&self, tasks: &mut Tasks<F, T, W>, waker: W) -> (polled: Poll<
        Result<T, JoinError>,
    >)
        requires
            old(tasks).wf(),
            old(tasks)@.contains_key(self.target()),
        ensures
            final(tasks).wf(),
            final(tasks).next_key() == old(tasks).next_key(),
            final(tasks)@ == old(tasks)@.insert(
                self.target(),
                after_join_poll(old(tasks)@[self.target()], waker),
            ),
            polled == join_result(old(tasks)@[self.target()]),
            ({
                let header = old(tasks)@[self.target()];
                let next = final(tasks)@[self.target()];
                !header.complete() && !header.aborted() ==> {
                    &&& polled is Pending
                    &&& next.join_interest()
                    &&& next.join_waker == Some(waker)
                }
            }),
    {
        proof {
            lemma_join_word(tasks@[self.header].state.bits);
        }
        let mut header = tasks.remove(self.header);
        let state = header.state;
        let polled = if state.is_complete() {
            take_result(&mut header)
        } else if state.is_aborted() {
            Poll::Ready(Err(JoinError::Aborted))
        } else {
            register_interest(&mut header, waker)
        };
        tasks.restore(self.header, header);
        assert(tasks@ =~= old(tasks)@.insert(self.header, header));
        polled
    }

    /// Drop the handle. A completed task forgets the waker that it was left, and
    /// goes with the handle if nothing else refers to it.
    pub fn drop<F, W>(self, tasks: &mut Tasks<F, T, W>)
        requires
            old(tasks).wf(),
            old(tasks)@.contains_key(self.target()),
        ensures
            final(tasks).wf(),
            final(tasks).next_key() == old(tasks).next_key(),
            ({
                let header = old(tasks)@[self.target()];
                final(tasks)@ == if header.detach_frees() {
                    old(tasks)@.remove(self.target())
                } else {
                    old(tasks)@.insert(self.target(), header.after_detach())
                }
            }),
    {
        let mut header = tasks.remove(self.header);
        let mut deallocate = false;
        proof {
            lemma_unjoined_word(header.state.bits);
        }
        if header.state.is_complete() {
            header.state = header.state.without_flag(TaskState::from_bits(TaskState::JOIN_INTEREST));
            header.join_waker = None;
            if !header.detached {
                deallocate = drop_waker(&mut header);
            }
        }
        header.detached = true;
        tasks.restore(self.header, header);
        assert(tasks@ =~= old(tasks)@.insert(self.header, header));
        if deallocate {
            VTableFor::<F, T>::deallocate(tasks, self.header);
            assert(tasks@ =~= old(tasks)@.remove(self.header));
        }
    }
}

/// Create a task from a future. When it is woken it goes to the runtime that is
/// current on the waking thread.
pub fn create_task<F, T, W>(tasks: &mut Tasks<F, T, W>, future: F) -> (r: (Task, JoinHandle<T>))
    requires
        old(tasks).wf(),
        old(tasks).next_key() < u64::MAX,
    ensures
        final(tasks).wf(),
        r.0.header == old(tasks).next_key(),
        r.1.target() == r.0.header,
        !old(tasks)@.contains_key(r.0.header),
        final(tasks).next_key() == r.0.header + 1,
        final(tasks)@ == old(tasks)@.insert(
            r.0.header,
            fresh_header(future, SchedulerData { shared: None, thread: None }),
        ),
{
    let (task, header) = create_raw_task(tasks, future, SchedulerData { shared: None, thread: None });
    (task, JoinHandle::new(header))
}

/// Create a task from a future. When it is woken it goes to the runtime `shared`.
pub fn create_task_with_shared<F, T, W>(tasks: &mut Tasks<F, T, W>, future: F, shared: u64) -> (r: (
    Task,
    JoinHandle<T>,
))
    requires
        old(tasks).wf(),
        old(tasks).next_key() < u64::MAX,
    ensures
        final(tasks).wf(),
        r.0.header == old(tasks).next_key(),
        r.1.target() == r.0.header,
        !old(tasks)@.contains_key(r.0.header),
        final(tasks).next_key() == r.0.header + 1,
        final(tasks)@ == old(tasks)@.insert(
            r.0.header,
            fresh_header(future, SchedulerData { shared: Some(shared), thread: None }),
        ),
{
    let (task, header) = create_raw_task(tasks, future, SchedulerData { shared: Some(shared), thread: None });
    (task, JoinHandle::new(header))
}

/// Create a task from a future that must run on the thread with this number.
/// Wherever it is woken, it goes to the queue of that thread.
pub fn create_local_task<F, T, W>(tasks: &mut Tasks<F, T, W>, future: F, thread: u64) -> (r: (
    Task,
    JoinHandle<T>,
))
    requires
        old(tasks).wf(),
        old(tasks).next_key() < u64::MAX,
    ensures
        final(tasks).wf(),
        r.0.header == old(tasks).next_key(),
        r.1.target() == r.0.header,
        !old(tasks)@.contains_key(r.0.header),
        final(tasks).next_key() == r.0.header + 1,
        final(tasks)@ == old(tasks)@.insert(
            r.0.header,
            fresh_header(future, SchedulerData { shared: None, thread: Some(thread) }),
        ),
{
    let scheduler = SchedulerData { shared: None, thread: Some(thread) };
    let (task, header) = create_raw_task(tasks, future, scheduler);
    (task, JoinHandle::new(header))
}

/// A future that is pending once.
pub struct YieldNow {
    pub yielded: bool,
}

/// Yield execution to the runtime, allowing other tasks to run.
pub fn yield_now() -> (r: YieldNow)
    ensures
        !r.yielded,
{
    YieldNow { yielded: false }
}

impl YieldNow {
    /// The future after a poll with this waker, and what the poll gives.
    pub open spec fn polls<W>(self, waker: W) -> (Self, (Poll<()>, Option<W>)) {
        (
            YieldNow { yielded: true },
            if self.yielded {
                (Poll::Ready(()), None)
            } else {
                (Poll::Pending, Some(waker))
            },
        )
    }

    /// Poll: pending the first time, and ready from then on. The waker comes back
    /// to be woken when the future is pending.
    pub fn poll<W>(&mut self, waker: W) -> (r: (Poll<()>, Option<W>))
        ensures
            final(self).yielded,
            (*final(self), r) == old(self).polls(waker),
            r == (if old(self).yielded {
                (Poll::Ready(()), None)
            } else {
                (Poll::Pending, Some(waker))
            }),
    {
        if !self.yielded {
            self.yielded = true;
            (Poll::Pending, Some(waker))
        } else {
            (Poll::Ready(()), None)
        }
    }
}

/// Yielding is pending once, and hands back the waker of that poll to be woken; from then
/// on it is ready, and hands back none.
pub proof fn law_yield_now_is_pending_once<W>(fresh: YieldNow, first: W, second: W)
    requires
        !fresh.yielded,
    ensures
        fresh.polls(first).1 == (Poll::<()>::Pending, Some(first)),
        fresh.polls(first).0.polls(second).1 == (Poll::Ready(()), None::<W>),
        fresh.polls(first).0.polls(second).0 == fresh.polls(first).0,
{
}

/// Spawn a new task onto the current runtime. Returns its join handle and whom to
/// tell.
pub fn spawn<F, T, W>(
    current: &CurrentContext,
    shared: &mut Shared,
    tasks: &mut Tasks<F, T, W>,
    future: F,
) -> (r: (JoinHandle<T>, Notice))
    requires
        current.context == Some(old(shared).id),
        old(shared).wf(),
        old(tasks).wf(),
        old(tasks).next_key() < u64::MAX,
    ensures
        final(shared).wf(),
        final(shared).same_but_queues(*old(shared)),
        final(shared).locals() == old(shared).locals(),
        final(shared).refusals@ == old(shared).refusals@,
        final(shared).queue() == old(shared).queue().push(r.0.target()),
        r.1 == old(shared).notice(),
        final(tasks).wf(),
        r.0.target() == old(tasks).next_key(),
        final(tasks).next_key() == r.0.target() + 1,
        final(tasks)@ == old(tasks)@.insert(
            r.0.target(),
            fresh_header(future, SchedulerData { shared: None, thread: None }),
        ),
{
    let handle = Handle::current(current).unwrap();
    handle.spawn(shared, tasks, future)
}

/// Spawn a task that must run on the current thread. Returns its join handle and
/// the parker to unpark.
pub fn spawn_local<F, T, W>(local: &mut LocalQueue, tasks: &mut Tasks<F, T, W>, future: F) -> (r: (
    JoinHandle<T>,
    Option<u64>,
))
    requires
        old(tasks).wf(),
        old(tasks).next_key() < u64::MAX,
    ensures
        r.1 == old(local).parker,
        final(local).same_but_tasks(*old(local)),
        final(local).tasks@ == old(local).tasks@.push(Task { header: r.0.target() }),
        final(tasks).wf(),
        r.0.target() == old(tasks).next_key(),
        final(tasks).next_key() == r.0.target() + 1,
        final(tasks)@ == old(tasks)@.insert(
            r.0.target(),
            fresh_header(future, SchedulerData { shared: None, thread: Some(old(local).thread) }),
        ),
{
    crate::runtime::scheduler::current_thread::spawn_local(local, tasks, future)
}

/// One turn of running a future to completion on the current thread: return
/// its output, or yield and poll it again.
pub fn block_on<T>(polled: Poll<T>) -> (step: BlockOnStep<T>)
    ensures
        step == (match polled {
            Poll::Ready(output) => BlockOnStep::Return(output),
            Poll::Pending => BlockOnStep::Yield,
        }),
{
    match polled {
        Poll::Ready(output) => BlockOnStep::Return(output),
        Poll::Pending => BlockOnStep::Yield,
    }
}

/// Extension trait for futures to spawn them as tasks.
pub trait FutureExt: Future + Sized {
    /// Spawn this future as a new task: see [`spawn`].
    fn spawn<W>(
        self,
        current: &CurrentContext,
        shared: &mut Shared,
        tasks: &mut Tasks<Self, Self::Output, W>,
    ) -> (r: (JoinHandle<Self::Output>, Notice))
        requires
            current.context == Some(old(shared).id),
            old(shared).wf(),
            old(tasks).wf(),
            old(tasks).next_key() < u64::MAX,
        ensures
            final(shared).wf(),
            final(shared).same_but_queues(*old(shared)),
            final(shared).locals() == old(shared).locals(),
            final(shared).refusals@ == old(shared).refusals@,
            final(shared).queue() == old(shared).queue().push(r.0.target()),
            r.1 == old(shared).notice(),
            final(tasks).wf(),
            r.0.target() == old(tasks).next_key(),
            final(tasks).next_key() == r.0.target() + 1,
            final(tasks)@ == old(tasks)@.insert(
                r.0.target(),
                fresh_header(self, SchedulerData { shared: None, thread: None }),
            ),
    {
        spawn(current, shared, tasks, self)
    }

    /// Spawn this future as a local task: see [`spawn_local`].
    fn spawn_local<W>(
        self,
        local: &mut LocalQueue,
        tasks: &mut Tasks<Self, Self::Output, W>,
    ) -> (r: (JoinHandle<Self::Output>, Option<u64>))
        requires
            old(tasks).wf(),
            old(tasks).next_key() < u64::MAX,
        ensures
            r.1 == old(local).parker,
            final(local).same_but_tasks(*old(local)),
            final(local).tasks@ == old(local).tasks@.push(Task { header: r.0.target() }),
            final(tasks).wf(),
            r.0.target() == old(tasks).next_key(),
            final(tasks).next_key() == r.0.target() + 1,
            final(tasks)@ == old(tasks)@.insert(
                r.0.target(),
                fresh_header(self, SchedulerData { shared: None, thread: Some(old(local).thread) }),
            ),
    {
        spawn_local(local, tasks, self)
    }
}

impl<F: Future> FutureExt for F {

}

} // verus!

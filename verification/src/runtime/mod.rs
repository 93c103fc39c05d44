//! The runtime: parkers, schedulers and handles.

pub mod builder;
pub mod handle;
pub mod io;
pub mod park;
pub mod scheduler;
pub mod timer;

pub use builder::Builder;
pub use handle::Handle;
pub use scheduler::current_thread::CurrentThread;
pub use scheduler::multi_thread::MultiThread;

use crate::runtime::park::{UnparkStep};
use crate::runtime::scheduler::current_thread::LocalQueue;
use crate::runtime::scheduler::multi_thread::{
    blocked, known_threads, BlockOnParker, BlockOnStep, CurrentContext, Notice, Shared, Shutdown,
};
use crate::task::raw::{fresh_header, Poll, SchedulerData, Task, Tasks};
use crate::task::JoinHandle;
use vstd::prelude::*;

verus! {

/// The scheduler of a runtime.
pub enum RuntimeKind {
    CurrentThread(CurrentThread),
    MultiThread(MultiThread),
}

/// A runtime.
pub struct Runtime {
    pub inner: RuntimeKind,
}

/// What a spawn asks for.
#[derive(Debug, Clone, Copy, PartialEq, Eq, Structural)]
pub enum Unpark {
    /// This, at the parker of the current-thread scheduler.
    Parker(UnparkStep),
    /// This is whom to tell.
    Notice(Notice),
}

/// What the end of a runtime asks for.
pub enum RuntimeShutdown {
    /// This, at the parker of the current-thread scheduler.
    CurrentThread(UnparkStep),
    /// Notify all workers that wait, and do this.
    MultiThread(Shutdown),
}

impl Runtime {
    /// The scheduler is in order.
    pub open spec fn wf(self) -> bool {
        match self.inner {
            RuntimeKind::CurrentThread(rt) => rt.wf(),
            RuntimeKind::MultiThread(rt) => rt.wf(),
        }
    }

    /// What the handles of the runtime refer to.
    pub open spec fn shared(self) -> Shared {
        match self.inner {
            RuntimeKind::CurrentThread(rt) => rt.shared,
            RuntimeKind::MultiThread(rt) => rt.shared,
        }
    }

    /// The number of the runtime.
    pub open spec fn id(self) -> u64 {
        self.shared().id
    }

    /// A runtime with as many workers as the machine has room for.
    pub fn new(id: u64, available_parallelism: Option<usize>, local: &mut LocalQueue) -> (r: Self)
        requires
            available_parallelism is Some ==> available_parallelism->0 > 0,
        ensures
            r.wf(),
            r.id() == id,
            r.inner matches RuntimeKind::MultiThread(scheduler) && {
                let count = match available_parallelism {
                    Some(n) => n,
                    None => 1,
                };
                &&& scheduler.shared.queue() == Seq::<u64>::empty()
                &&& scheduler.shared.stealers@.len() == count
                &&& scheduler.shared.locals() == Seq::new(
                    count as nat,
                    |i: int| Seq::<u64>::empty(),
                )
                &&& scheduler.shared.active == count
                &&& !scheduler.shared.shutdown
                &&& scheduler.workers@ == Seq::new(count as nat, |i: int| i as usize)
            },
            final(local).tasks == old(local).tasks,
            final(local).same_but_tasks(*old(local)),
    {
        Builder::new_multi_thread(available_parallelism).build(id, local)
    }

    /// One turn of blocking on a future: see [`CurrentThread::block_on`] and
    /// [`MultiThread::block_on`]. With several threads the future is polled
    /// before every turn.
    pub fn block_on<T>(
        &mut self,
        local: &mut LocalQueue,
        parker: &mut BlockOnParker,
        polled: Option<Poll<T>>,
    ) -> (step: BlockOnStep<T>)
        requires
            old(self).wf(),
            old(self).inner is MultiThread ==> polled is Some,
        ensures
            final(self).wf(),
            final(self).id() == old(self).id(),
            final(local).same_but_tasks(*old(local)),
            polled matches Some(Poll::Ready(output)) ==> {
                &&& step == BlockOnStep::Return(output)
                &&& final(local).tasks@ == old(local).tasks@
                &&& *final(parker) == *old(parker)
            },
            match (old(self).inner, final(self).inner) {
                (RuntimeKind::MultiThread(before), RuntimeKind::MultiThread(after)) => {
                    &&& after.same_but_shared(before)
                    &&& polled matches Some(Poll::Ready(_)) ==> after.shared == before.shared
                    &&& final(local).tasks@ == old(local).tasks@
                    &&& polled == Some(Poll::<T>::Pending) ==> blocked(
                        before.shared,
                        after.shared,
                        *old(parker),
                        *final(parker),
                        step,
                    )
                },
                (RuntimeKind::CurrentThread(before), RuntimeKind::CurrentThread(after)) => {
                    &&& *final(parker) == *old(parker)
                    &&& polled matches Some(Poll::Ready(_)) ==> after == before
                    &&& !(polled matches Some(Poll::Ready(_))) ==> before.blocks(
                        after,
                        old(local).tasks@,
                        final(local).tasks@,
                        step,
                    )
                },
                _ => false,
            },
    {
        match &mut self.inner {
            RuntimeKind::CurrentThread(rt) => rt.block_on(local, polled),
            RuntimeKind::MultiThread(rt) => rt.block_on(parker, polled.unwrap()),
        }
    }

    /// Spawn a task.
    pub fn spawn<F, T, W>(
        &mut self,
        local: &mut LocalQueue,
        tasks: &mut Tasks<F, T, W>,
        future: F,
    ) -> (r: (JoinHandle<T>, Unpark))
        requires
            old(self).wf(),
            old(tasks).wf(),
            old(tasks).next_key() < u64::MAX,
        ensures
            final(self).wf(),
            final(local).same_but_tasks(*old(local)),
            match (old(self).inner, final(self).inner) {
                (RuntimeKind::MultiThread(before), RuntimeKind::MultiThread(after)) => {
                    &&& after.same_but_shared(before)
                    &&& after.shared.same_but_queues(before.shared)
                    &&& after.shared.locals() == before.shared.locals()
                    &&& after.shared.refusals@ == before.shared.refusals@
                    &&& after.shared.queue() == before.shared.queue().push(r.0.target())
                    &&& r.1 == Unpark::Notice(before.shared.notice())
                    &&& final(local).tasks@ == old(local).tasks@
                },
                (RuntimeKind::CurrentThread(before), RuntimeKind::CurrentThread(after)) => {
                    &&& after.same_but_parker(before)
                    &&& after.parker.state is Notified
                    &&& r.1 == Unpark::Parker(before.parker.state.unpark_step())
                    &&& final(local).tasks@ == old(local).tasks@.push(
                        Task { header: r.0.target() },
                    )
                },
                _ => false,
            },
            final(tasks).wf(),
            r.0.target() == old(tasks).next_key(),
            final(tasks).next_key() == r.0.target() + 1,
            final(tasks)@ == old(tasks)@.insert(
                r.0.target(),
                fresh_header(future, SchedulerData { shared: None, thread: None }),
            ),
    {
        match &mut self.inner {
            RuntimeKind::CurrentThread(rt) => {
                let (join, step) = rt.spawn(local, tasks, future);
                (join, Unpark::Parker(step))
            },
            RuntimeKind::MultiThread(rt) => {
                let (join, notice) = rt.spawn(tasks, future);
                (join, Unpark::Notice(notice))
            },
        }
    }

    /// A handle to the runtime.
    pub fn handle(&self) -> (r: Handle)
        requires
            self.wf(),
        ensures
            r == (Handle { shared: self.id(), local: self.inner is CurrentThread }),
    {
        match &self.inner {
            RuntimeKind::CurrentThread(rt) => rt.handle(),
            RuntimeKind::MultiThread(rt) => rt.handle(),
        }
    }

    /// The end of the runtime: it is shut down.
    pub fn drop(&mut self, local: &mut LocalQueue, current: &mut CurrentContext) -> (r:
        RuntimeShutdown)
        requires
            old(self).wf(),
        ensures
            final(self).wf(),
            match (old(self).inner, final(self).inner) {
                (RuntimeKind::MultiThread(before), RuntimeKind::MultiThread(after)) => {
                    &&& after.handle == before.handle
                    &&& after.shared == (Shared { shutdown: true, ..before.shared })
                    &&& after.workers@ == Seq::<usize>::empty()
                    &&& r matches RuntimeShutdown::MultiThread(shutdown)
                    &&& shutdown.unpark@ == known_threads(before.shared.unparkers@)
                    &&& shutdown.join@ == before.workers@
                    &&& *final(current) == (CurrentContext { context: None, ..*old(current) })
                    &&& *final(local) == *old(local)
                },
                (RuntimeKind::CurrentThread(before), RuntimeKind::CurrentThread(after)) => {
                    &&& after.shutdown
                    &&& after.handle == before.handle
                    &&& after.shared == (Shared { shutdown: true, ..before.shared })
                    &&& after.parker.id == before.parker.id
                    &&& after.parker.state is Notified
                    &&& r == RuntimeShutdown::CurrentThread(before.parker.state.unpark_step())
                    &&& final(local).tasks@ == Seq::<Task>::empty()
                    &&& final(local).parker is None
                    &&& final(local).thread == old(local).thread
                    &&& *final(current) == *old(current)
                },
                _ => false,
            },
    {
        match &mut self.inner {
            RuntimeKind::CurrentThread(rt) => RuntimeShutdown::CurrentThread(rt.shutdown(local)),
            RuntimeKind::MultiThread(rt) => RuntimeShutdown::MultiThread(rt.shutdown(current)),
        }
    }
}

} // verus!

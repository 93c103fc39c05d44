//! The scheduler that runs all tasks on the thread that blocks on it.

use crate::runtime::handle::Handle;
use crate::runtime::park::{
    begin_park, end_wait, notify, ParkState, ParkStep, UnparkStep, WakeReason,
};
use crate::runtime::scheduler::multi_thread::{BlockOnStep, Shared};
use crate::runtime::scheduler::queue::injector_is_empty;
use crate::task::raw::{fresh_header, Poll, SchedulerData, Task, Tasks};
use crate::task::waker::{Waker, WakerVtable};
use crate::task::{create_local_task, create_task, JoinHandle};
use crossbeam::deque::Worker;
use std::collections::VecDeque;
use vstd::prelude::*;

verus! {

/// What a thread keeps for its current-thread scheduler: the tasks that wait,
/// and the number of the parker to unpark when there is one more.
pub struct LocalQueue {
    /// The number of the thread.
    pub thread: u64,
    pub tasks: VecDeque<Task>,
    pub parker: Option<u64>,
}

impl LocalQueue {
    /// Whether two queues differ in nothing but the tasks that wait.
    pub open spec fn same_but_tasks(self, other: Self) -> bool {
        self.thread == other.thread && self.parker == other.parker
    }

    /// Let a task wait. Returns the parker to unpark.
    pub fn push(&mut self, task: Task) -> (parker: Option<u64>)
        ensures
            final(self).same_but_tasks(*old(self)),
            final(self).tasks@ == old(self).tasks@.push(task),
            parker == old(self).parker,
    {
        self.tasks.push_back(task);
        self.parker
    }

    /// No tasks, and no parker, on the thread with this number.
    pub fn new(thread: u64) -> (r: Self)
        ensures
            r.thread == thread,
            r.tasks@ == Seq::<Task>::empty(),
            r.parker is None,
    {
        LocalQueue { thread, tasks: VecDeque::new(), parker: None }
    }
}

/// The parker of a current-thread scheduler.
pub struct ThreadParker {
    /// The number by which wakers know the parker.
    pub id: u64,
    pub state: ParkState,
}

impl ThreadParker {
    /// A parker at which nobody is parked.
    pub fn new(id: u64) -> (r: Self)
        ensures
            r == (ThreadParker { id, state: ParkState::Empty }),
    {
        ThreadParker { id, state: ParkState::Empty }
    }

    /// Park without a time limit.
    pub fn park(&mut self) -> (step: ParkStep)
        ensures
            *final(self) == (ThreadParker { state: old(self).state.after_park(), ..*old(self) }),
            step == old(self).state.park_step(None),
    {
        self.park_timeout(None)
    }

    /// Park, for at most `duration` if there is one.
    pub fn park_timeout(&mut self, duration: Option<u128>) -> (step: ParkStep)
        ensures
            *final(self) == (ThreadParker { state: old(self).state.after_park(), ..*old(self) }),
            step == old(self).state.park_step(duration),
    {
        begin_park(&mut self.state, duration)
    }

    /// The wait of the parked thread is over: by timeout or not.
    pub fn after_wait(&mut self, timed_out: bool) -> (reason: WakeReason)
        requires
            !(old(self).state is Empty),
        ensures
            *final(self) == (ThreadParker { state: ParkState::Empty, ..*old(self) }),
            reason == old(self).state.wake_reason(),
    {
        if timed_out {
            if let ParkState::Parked = self.state {
                self.state = ParkState::Empty;
                return WakeReason::TimedOut;
            }
        }
        end_wait(&mut self.state)
    }

    /// Unpark the thread.
    pub fn unpark(&mut self) -> (step: UnparkStep)
        ensures
            *final(self) == (ThreadParker { state: ParkState::Notified, ..*old(self) }),
            step == old(self).state.unpark_step(),
    {
        notify(&mut self.state)
    }

    /// The waker that unparks.
    pub fn waker(&self) -> (r: Waker)
        ensures
            r == (Waker { data: self.id, vtable: WakerVtable::ThreadParker }),
    {
        Waker { data: self.id, vtable: WakerVtable::ThreadParker }
    }

    /// The waker of this parker is woken, by value or by reference: the same as
    /// [`ThreadParker::unpark`].
    pub fn wake(&mut self, waker: &Waker) -> (step: UnparkStep)
        requires
            *waker == (Waker { data: old(self).id, vtable: WakerVtable::ThreadParker }),
        ensures
            *final(self) == (ThreadParker { state: ParkState::Notified, ..*old(self) }),
            step == old(self).state.unpark_step(),
    {
        self.unpark()
    }
}

/// What a thread that turns its scheduler has to do next.
pub enum TurnStep {
    /// Run the task, and turn again.
    Run(Task),
    /// Park; then the turn is over, see [`CurrentThread::turned`].
    Park(ParkStep),
    /// The turn is over: the scheduler is shut down, or a task in the shared queue
    /// could not be had.
    Done,
}

/// The scheduler that runs all tasks on the current thread.
pub struct CurrentThread {
    pub handle: Handle,
    /// The state that its handles refer to.
    pub shared: Shared,
    pub parker: ThreadParker,
    pub shutdown: bool,
}

impl CurrentThread {
    /// The handle is that of this scheduler.
    pub open spec fn wf(self) -> bool {
        &&& self.shared.wf()
        &&& self.handle == (Handle { shared: self.shared.id, local: true })
    }

    /// Whether two schedulers differ in nothing but the state of the parker.
    pub open spec fn same_but_parker(self, other: Self) -> bool {
        &&& self.handle == other.handle
        &&& self.shared == other.shared
        &&& self.parker.id == other.parker.id
        &&& self.shutdown == other.shutdown
    }

    /// Whether two schedulers differ in nothing but what the shared queue holds.
    pub open spec fn same_but_queue(self, other: Self) -> bool {
        &&& self.handle == other.handle
        &&& self.parker == other.parker
        &&& self.shutdown == other.shutdown
        &&& self.shared.same_but_queues(other.shared)
        &&& self.shared.locals() == other.shared.locals()
    }

    /// Whether `task` is what the scheduler takes next, and this is what it leaves:
    /// the first of the tasks that wait on the thread; else what the shared queue
    /// gives.
    pub open spec fn gives_next(
        self,
        after: Self,
        waiting: Seq<Task>,
        waiting_after: Seq<Task>,
        task: Option<Task>,
    ) -> bool {
        &&& after.same_but_queue(self)
        &&& if waiting.len() > 0 {
            &&& task == Some(waiting[0])
            &&& waiting_after == waiting.drop_first()
            &&& after.shared.queue() == self.shared.queue()
            &&& after.shared.refusals@ == self.shared.refusals@
        } else {
            &&& waiting_after == waiting
            &&& self.shared.injector_gave(after.shared, task)
        }
    }

    /// Whether no task waits, neither on the thread nor in the shared queue.
    pub open spec fn idle(self, waiting: Seq<Task>) -> bool {
        waiting.len() == 0 && self.shared.queue().len() == 0
    }

    /// One turn of blocking on a future, which was polled just now or not: return
    /// its output if there is one; else see [`CurrentThread::blocks`].
    pub open spec fn block_turn<T>(
        self,
        after: Self,
        waiting: Seq<Task>,
        waiting_after: Seq<Task>,
        polled: Option<Poll<T>>,
        step: BlockOnStep<T>,
    ) -> bool {
        match polled {
            Some(Poll::Ready(output)) => {
                &&& step == BlockOnStep::Return(output)
                &&& after == self
                &&& waiting_after == waiting
            },
            _ => self.blocks(after, waiting, waiting_after, step),
        }
    }

    /// One turn of blocking on a future that is pending: run a task if there is
    /// one; park if there is none; go on if there is one that could not be had.
    pub open spec fn blocks<T>(
        self,
        after: Self,
        waiting: Seq<Task>,
        waiting_after: Seq<Task>,
        step: BlockOnStep<T>,
    ) -> bool {
        match step {
            BlockOnStep::Run(task) => self.gives_next(after, waiting, waiting_after, Some(task)),
            BlockOnStep::Park(park) => {
                &&& self.idle(waiting)
                &&& self.gives_next(
                    (CurrentThread { parker: self.parker, ..after }),
                    waiting,
                    waiting_after,
                    None,
                )
                &&& park == self.parker.state.park_step(None)
                &&& after.parker == (ThreadParker {
                    state: self.parker.state.after_park(),
                    ..self.parker
                })
            },
            BlockOnStep::Yield => {
                &&& !self.idle(waiting)
                &&& self.gives_next(after, waiting, waiting_after, None)
            },
            BlockOnStep::Return(_) => false,
        }
    }

    /// One turn: run a task if there is one; park if there is none, unless the
    /// scheduler is shut down.
    pub open spec fn turns(
        self,
        after: Self,
        waiting: Seq<Task>,
        waiting_after: Seq<Task>,
        duration: Option<u128>,
        step: TurnStep,
    ) -> bool {
        match step {
            TurnStep::Run(task) => self.gives_next(after, waiting, waiting_after, Some(task)),
            TurnStep::Park(park) => {
                &&& self.idle(waiting)
                &&& !self.shutdown
                &&& self.gives_next(
                    (CurrentThread { parker: self.parker, ..after }),
                    waiting,
                    waiting_after,
                    None,
                )
                &&& park == self.parker.state.park_step(duration)
                &&& after.parker == (ThreadParker {
                    state: self.parker.state.after_park(),
                    ..self.parker
                })
            },
            TurnStep::Done => {
                &&& !self.idle(waiting) || self.shutdown
                &&& self.gives_next(after, waiting, waiting_after, None)
            },
        }
    }

    /// A scheduler for the current thread, which the thread then unparks for
    /// tasks of its own.
    pub fn new(id: u64, local: &mut LocalQueue) -> (r: Self)
        ensures
            r.wf(),
            r.shared.id == id,
            r.shared.queue() == Seq::<u64>::empty(),
            r.shared.stealers@.len() == 0,
            r.shared.unparkers@.len() == 0,
            r.shared.active == 1,
            !r.shared.shutdown,
            r.parker == (ThreadParker { id, state: ParkState::Empty }),
            !r.shutdown,
            final(local).tasks == old(local).tasks,
            final(local).parker == Some(id),
            final(local).thread == old(local).thread,
    {
        local.parker = Some(id);
        let (shared, handle) = Handle::for_current_thread(id);
        CurrentThread { handle, shared, parker: ThreadParker::new(id), shutdown: false }
    }

    /// One turn of blocking on a future. `polled` is what the future gave if it
    /// was polled just now, and `None` if a task was run instead. While the
    /// future is pending all tasks are run; then the thread parks, and the
    /// future is polled again.
    pub fn block_on<T>(&mut self, local: &mut LocalQueue, polled: Option<Poll<T>>) -> (step:
        BlockOnStep<T>)
        requires
            old(self).wf(),
        ensures
            final(self).wf(),
            final(local).same_but_tasks(*old(local)),
            old(self).block_turn(
                *final(self),
                old(local).tasks@,
                final(local).tasks@,
                polled,
                step,
            ),
            polled matches Some(Poll::Ready(output)) ==> {
                &&& step == BlockOnStep::Return(output)
                &&& *final(self) == *old(self)
                &&& final(local).tasks@ == old(local).tasks@
            },
    {
        if let Some(Poll::Ready(output)) = polled {
            return BlockOnStep::Return(output);
        }
        let found = self.run_until_idle(local);
        let idle = self.is_idle(local);
        self.after_run(found, idle)
    }

    /// What blocking on a pending future comes to: a task that was found is run;
    /// without one the thread parks if nothing waits, and goes on if something
    /// does.
    pub fn after_run<T>(&mut self, found: Option<Task>, idle: bool) -> (step: BlockOnStep<T>)
        ensures
            match found {
                Some(task) => {
                    &&& step == BlockOnStep::<T>::Run(task)
                    &&& *final(self) == *old(self)
                },
                None => if idle {
                    &&& step == BlockOnStep::<T>::Park(old(self).parker.state.park_step(None))
                    &&& *final(self) == (CurrentThread {
                        parker: ThreadParker {
                            state: old(self).parker.state.after_park(),
                            ..old(self).parker
                        },
                        ..*old(self)
                    })
                } else {
                    &&& step == BlockOnStep::<T>::Yield
                    &&& *final(self) == *old(self)
                },
            },
    {
        if let Some(task) = found {
            BlockOnStep::Run(task)
        } else if idle {
            BlockOnStep::Park(self.parker.park())
        } else {
            BlockOnStep::Yield
        }
    }

    /// The next task to run, until there is none: from those that wait on the
    /// thread, and then from the shared queue, which handles fill.
    pub fn run_until_idle(&mut self, local: &mut LocalQueue) -> (task: Option<Task>)
        requires
            old(self).wf(),
        ensures
            final(self).wf(),
            final(local).same_but_tasks(*old(local)),
            old(self).gives_next(*final(self), old(local).tasks@, final(local).tasks@, task),
            old(local).tasks@.len() > 0 ==> {
                &&& task == Some(old(local).tasks@[0])
                &&& final(local).tasks@ == old(local).tasks@.drop_first()
            },
    {
        match local.tasks.pop_front() {
            Some(task) => Some(task),
            None => self.shared.steal(),
        }
    }

    /// Whether no task waits.
    pub fn is_idle(&self, local: &LocalQueue) -> (r: bool)
        ensures
            r == self.idle(local.tasks@),
    {
        local.tasks.len() == 0 && injector_is_empty(&self.shared.injector)
    }

    /// Spawn a task. Returns its join handle, and what unparking asks for.
    pub fn spawn<F, T, W>(
        &mut self,
        local: &mut LocalQueue,
        tasks: &mut Tasks<F, T, W>,
        future: F,
    ) -> (r: (JoinHandle<T>, UnparkStep))
        requires
            old(self).wf(),
            old(tasks).wf(),
            old(tasks).next_key() < u64::MAX,
        ensures
            final(self).wf(),
            final(self).same_but_parker(*old(self)),
            final(self).parker.state is Notified,
            r.1 == old(self).parker.state.unpark_step(),
            final(local).same_but_tasks(*old(local)),
            final(local).tasks@ == old(local).tasks@.push(Task { header: r.0.target() }),
            final(tasks).wf(),
            r.0.target() == old(tasks).next_key(),
            final(tasks).next_key() == r.0.target() + 1,
            final(tasks)@ == old(tasks)@.insert(
                r.0.target(),
                fresh_header(future, SchedulerData { shared: None, thread: None }),
            ),
    {
        let (task, join) = create_task(tasks, future);
        let step = self.spawn_task(local, task);
        (join, step)
    }

    /// Let a task wait to be run, and unpark.
    pub fn spawn_task(&mut self, local: &mut LocalQueue, task: Task) -> (step: UnparkStep)
        requires
            old(self).wf(),
        ensures
            final(self).wf(),
            final(self).same_but_parker(*old(self)),
            final(self).parker.state is Notified,
            step == old(self).parker.state.unpark_step(),
            final(local).same_but_tasks(*old(local)),
            final(local).tasks@ == old(local).tasks@.push(task),
    {
        local.tasks.push_back(task);
        self.parker.unpark()
    }

    /// A handle to the runtime.
    pub fn handle(&self) -> (r: Handle)
        ensures
            r == self.handle,
    {
        self.handle
    }

    /// Shut down: the tasks that wait are dropped, and the thread has no parker
    /// any more. Returns what unparking asks for.
    pub fn shutdown(&mut self, local: &mut LocalQueue) -> (step: UnparkStep)
        requires
            old(self).wf(),
        ensures
            final(self).wf(),
            final(self).shutdown,
            final(self).shared == (Shared { shutdown: true, ..old(self).shared }),
            final(self).handle == old(self).handle,
            final(self).parker == (ThreadParker {
                state: ParkState::Notified,
                ..old(self).parker
            }),
            step == old(self).parker.state.unpark_step(),
            final(local).tasks@ == Seq::<Task>::empty(),
            final(local).parker is None,
            final(local).thread == old(local).thread,
    {
        self.shutdown = true;
        self.shared.shutdown = true;
        let step = self.parker.unpark();
        local.tasks.clear();
        local.parker = None;
        step
    }

    /// Turn the scheduler once: run all tasks, and then park, for at most
    /// `duration` if there is one, unless the scheduler is shut down.
    pub fn turn(&mut self, local: &mut LocalQueue, duration: Option<u128>) -> (step: TurnStep)
        requires
            old(self).wf(),
        ensures
            final(self).wf(),
            final(local).same_but_tasks(*old(local)),
            old(self).turns(
                *final(self),
                old(local).tasks@,
                final(local).tasks@,
                duration,
                step,
            ),
    {
        let found = self.run_until_idle(local);
        let idle = self.is_idle(local);
        self.after_turn(found, idle, duration)
    }

    /// What a turn comes to: a task that was found is run; without one the thread
    /// parks if nothing waits, unless the scheduler is shut down.
    pub fn after_turn(&mut self, found: Option<Task>, idle: bool, duration: Option<u128>) -> (step:
        TurnStep)
        ensures
            match found {
                Some(task) => {
                    &&& step == TurnStep::Run(task)
                    &&& *final(self) == *old(self)
                },
                None => if idle && !old(self).shutdown {
                    &&& step == TurnStep::Park(old(self).parker.state.park_step(duration))
                    &&& *final(self) == (CurrentThread {
                        parker: ThreadParker {
                            state: old(self).parker.state.after_park(),
                            ..old(self).parker
                        },
                        ..*old(self)
                    })
                } else {
                    &&& step is Done
                    &&& *final(self) == *old(self)
                },
            },
    {
        if let Some(task) = found {
            TurnStep::Run(task)
        } else if idle && !self.shutdown {
            TurnStep::Park(self.parker.park_timeout(duration))
        } else {
            TurnStep::Done
        }
    }

    /// What a turn returns when it is over: whether the scheduler goes on.
    pub fn turned(&self) -> (r: bool)
        ensures
            r == !self.shutdown,
    {
        !self.shutdown
    }
}

impl Handle {
    /// The shared state and the handle of a current-thread scheduler: it has no
    /// workers, and counts as one active.
    pub fn for_current_thread(id: u64) -> (r: (Shared, Handle))
        ensures
            r.0.wf(),
            r.0.id == id,
            r.0.queue() == Seq::<u64>::empty(),
            r.0.stealers@.len() == 0,
            r.0.unparkers@.len() == 0,
            r.0.active == 1,
            !r.0.shutdown,
            r.1 == (Handle { shared: id, local: true }),
    {
        let stealers: Vec<Worker<u64>> = Vec::new();
        (Shared::new(id, stealers, 1), Handle { shared: id, local: true })
    }
}

/// Spawn a task on the current thread, which it never leaves. Returns its join
/// handle, and the parker to unpark.
pub fn spawn_local<F, T, W>(local: &mut LocalQueue, tasks: &mut Tasks<F, T, W>, future: F) -> (r: (
    JoinHandle<T>,
    Option<u64>,
))
    requires
        old(tasks).wf(),
        old(tasks).next_key() < u64::MAX,
    ensures
        r.1 == old(local).parker,
        final(local).same_but_tasks(*old(local)),
        final(local).tasks@ == old(local).tasks@.push(Task { header: r.0.target() }),
        final(tasks).wf(),
        r.0.target() == old(tasks).next_key(),
        final(tasks).next_key() == r.0.target() + 1,
        final(tasks)@ == old(tasks)@.insert(
            r.0.target(),
            fresh_header(future, SchedulerData { shared: None, thread: Some(old(local).thread) }),
        ),
{
    let (task, join) = create_local_task(tasks, future, local.thread);
    let parker = local.push(task);
    (join, parker)
}

} // verus!

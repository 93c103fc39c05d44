//! The scheduler with several worker threads, which steal from each other.

use crate::runtime::handle::Handle;
use crate::runtime::park::ParkStep;
use crate::runtime::scheduler::queue::{
    injector_contents, injector_is_empty, injector_new, injector_push, injector_steal,
    worker_contents, worker_is_fifo, worker_new_fifo, worker_pop, worker_steal, Attempt, Refusal,
    Steal,
};
use crate::task::raw::{fresh_header, Poll, SchedulerData, Task, Tasks};
use crate::task::waker::{Waker, WakerVtable};
use crate::task::{create_task, JoinHandle};
use crossbeam::deque::{Injector, Worker};
use vstd::prelude::*;

verus! {

/// What some worker queues hold.
pub open spec fn contents_of(queues: Seq<Worker<u64>>) -> Seq<Seq<u64>> {
    queues.map_values(|queue: Worker<u64>| worker_contents(queue))
}

/// Whether all of some worker queues are first-in first-out.
pub open spec fn all_fifo(queues: Seq<Worker<u64>>) -> bool {
    forall|i: int| 0 <= i < queues.len() ==> worker_is_fifo(#[trigger] queues[i])
}

/// Some queues after the front of one of them was taken.
pub open spec fn without_front(queues: Seq<Seq<u64>>, at: int) -> Seq<Seq<u64>> {
    queues.update(at, queues[at].drop_first())
}

/// Which of some queues a thief robs who tries them in this order: the first
/// that is not empty.
pub open spec fn first_filled(queues: Seq<Seq<u64>>, order: Seq<int>) -> Option<int>
    decreases order.len(),
{
    if order.len() == 0 {
        None
    } else if queues[order[0]].len() > 0 {
        Some(order[0])
    } else {
        first_filled(queues, order.drop_first())
    }
}

/// What a thief gets who tries some queues in this order.
pub open spec fn loot(queues: Seq<Seq<u64>>, order: Seq<int>) -> Option<Task> {
    match first_filled(queues, order) {
        Some(at) => Some(Task { header: queues[at][0] }),
        None => None,
    }
}

/// What a thief leaves who tries some queues in this order.
pub open spec fn looted(queues: Seq<Seq<u64>>, order: Seq<int>) -> Seq<Seq<u64>> {
    match first_filled(queues, order) {
        Some(at) => without_front(queues, at),
        None => queues,
    }
}

/// The order in which a thief from outside tries `count` queues.
pub open spec fn outside_order(count: nat) -> Seq<int> {
    Seq::new(count, |k: int| k)
}

/// The order in which a worker tries the queues of the others: from the next
/// one on, around the end.
pub open spec fn worker_order(my_index: int, count: nat) -> Seq<int> {
    Seq::new((count - 1) as nat, |offset: int| ((my_index + 1) % count as int + offset) % count as int)
}

/// Steal from one of some worker queues.
fn steal_at(queues: &mut Vec<Worker<u64>>, at: usize) -> (task: Option<u64>)
    requires
        at < old(queues)@.len(),
        all_fifo(old(queues)@),
    ensures
        final(queues)@.len() == old(queues)@.len(),
        all_fifo(final(queues)@),
        task is Some <==> contents_of(old(queues)@)[at as int].len() > 0,
        task is Some ==> task->0 == contents_of(old(queues)@)[at as int][0],
        task is Some ==> contents_of(final(queues)@) == without_front(
            contents_of(old(queues)@),
            at as int,
        ),
        task is None ==> contents_of(final(queues)@) == contents_of(old(queues)@),
{
    let stolen = worker_steal(&mut queues[at]);
    proof {
        let before = old(queues)@;
        let after = queues@;
        assert(after.len() == before.len());
        assert(forall|i: int| 0 <= i < after.len() && i != at ==> after[i] == before[i]);
        assert(worker_is_fifo(before[at as int]));
        if stolen is Success {
            assert(contents_of(after) =~= without_front(contents_of(before), at as int));
        } else {
            assert(contents_of(after) =~= contents_of(before));
        }
    }
    match stolen {
        Steal::Success(task) => Some(task),
        Steal::Empty => None,
        Steal::Retry => None,
    }
}

/// The thread to unpark for a worker, once that has said which it is.
#[derive(Debug, Clone, Copy, PartialEq, Eq, Structural)]
pub struct ThreadUnpark {
    pub thread: Option<u64>,
    pub id: usize,
}

impl ThreadUnpark {
    /// Say that the worker runs on the thread with this number.
    pub fn park(&mut self, thread: u64)
        ensures
            *final(self) == (ThreadUnpark { thread: Some(thread), ..*old(self) }),
    {
        self.thread = Some(thread);
    }

    /// The thread to unpark.
    pub fn unpark(&self) -> (thread: Option<u64>)
        ensures
            thread == self.thread,
    {
        self.thread
    }
}

/// The runtime that is current on a thread, and the worker that the thread is.
#[derive(Debug, Clone, Copy, PartialEq, Eq, Structural)]
pub struct CurrentContext {
    /// The number of the runtime.
    pub context: Option<u64>,
    /// The index of the worker.
    pub worker: Option<usize>,
}

impl CurrentContext {
    /// No runtime is current.
    pub fn new() -> (r: Self)
        ensures
            r == (CurrentContext { context: None, worker: None }),
    {
        CurrentContext { context: None, worker: None }
    }

    /// The runtime that is current.
    pub fn current_shared(&self) -> (r: Option<u64>)
        ensures
            r == self.context,
    {
        self.context
    }

    /// The worker that the thread is.
    pub fn current_worker(&self) -> (r: Option<usize>)
        ensures
            r == self.worker,
    {
        self.worker
    }
}

/// Remembers what was current before, and puts it back.
pub struct ContextGuard {
    pub old_context: Option<u64>,
    pub old_worker: Option<usize>,
}

impl ContextGuard {
    /// The guard that remembers `current`.
    pub open spec fn remembering(current: CurrentContext) -> Self {
        ContextGuard { old_context: current.context, old_worker: current.worker }
    }

    /// What is current after the guard was dropped.
    pub open spec fn restored(self) -> CurrentContext {
        CurrentContext { context: self.old_context, worker: self.old_worker }
    }

    /// Make the runtime `context` current, and the thread no worker.
    pub fn new(current: &mut CurrentContext, context: u64) -> (guard: Self)
        ensures
            *final(current) == (CurrentContext { context: Some(context), worker: None }),
            guard == ContextGuard::remembering(*old(current)),
    {
        let guard = ContextGuard { old_context: current.context, old_worker: current.worker };
        current.context = Some(context);
        current.worker = None;
        guard
    }

    /// Put back what was current before.
    pub fn drop(self, current: &mut CurrentContext)
        ensures
            *final(current) == self.restored(),
    {
        current.context = self.old_context;
        current.worker = self.old_worker;
    }
}

/// Whom to tell that there is one more task.
#[derive(Debug, Clone, Copy, PartialEq, Eq, Structural)]
pub struct Notice {
    /// The thread to unpark.
    pub thread: Option<u64>,
    /// Whether to notify one of the workers that wait.
    pub worker: bool,
    /// The parker to unpark, of a current-thread scheduler.
    pub parker: Option<u64>,
}

/// What all threads of a runtime share.
pub struct Shared {
    /// The number of the runtime.
    pub id: u64,
    /// The queue that all share.
    pub injector: Injector<u64>,
    /// The queues of the workers, to be stolen from.
    pub stealers: Vec<Worker<u64>>,
    /// The threads of the workers.
    pub unparkers: Vec<ThreadUnpark>,
    /// How many workers are awake.
    pub active: usize,
    /// Whether the runtime is shut down.
    pub shutdown: bool,
    /// Each time that the queue that all share has asked for another attempt.
    pub refusals: Vec<Refusal>,
}

/// The numbers of the threads that are known, in their order.
pub open spec fn known_threads(unparkers: Seq<ThreadUnpark>) -> Seq<u64>
    decreases unparkers.len(),
{
    if unparkers.len() == 0 {
        Seq::empty()
    } else {
        let before = known_threads(unparkers.drop_last());
        match unparkers.last().thread {
            Some(thread) => before.push(thread),
            None => before,
        }
    }
}

impl Shared {
    /// The worker queues are first-in first-out.
    pub open spec fn wf(self) -> bool {
        all_fifo(self.stealers@)
    }

    /// The tasks in the queue that all share.
    pub open spec fn queue(self) -> Seq<u64> {
        injector_contents(self.injector)
    }

    /// The tasks in the queues of the workers.
    pub open spec fn locals(self) -> Seq<Seq<u64>> {
        contents_of(self.stealers@)
    }

    /// Whether two states differ in nothing but what the queues hold.
    pub open spec fn same_but_queues(self, other: Self) -> bool {
        &&& self.id == other.id
        &&& self.unparkers == other.unparkers
        &&& self.active == other.active
        &&& self.shutdown == other.shutdown
    }

    /// Whether two states are alike.
    pub open spec fn alike(self, other: Self) -> bool {
        &&& self.same_but_queues(other)
        &&& self.refusals@ == other.refusals@
        &&& self.queue() == other.queue()
        &&& self.locals() == other.locals()
    }

    /// Whether `after` is what is left of `self` when a steal from the shared
    /// queue gave `task`. It gives the oldest task. It may give nothing even though
    /// there is one, but then it has asked for another attempt.
    pub open spec fn injector_gave(self, after: Self, task: Option<Task>) -> bool {
        &&& after.same_but_queues(self)
        &&& after.locals() == self.locals()
        &&& match task {
            Some(task) => {
                &&& self.queue().len() > 0
                &&& task.header == self.queue()[0]
                &&& after.queue() == self.queue().drop_first()
                &&& after.refusals@ == self.refusals@
            },
            None => {
                &&& after.queue() == self.queue()
                &&& after.refusals@.len() == self.refusals@.len() + (if self.queue().len() == 0 {
                    0nat
                } else {
                    1nat
                })
            },
        }
    }

    /// The thread of the first worker, if it is known.
    pub open spec fn first_thread(self) -> Option<u64> {
        if self.unparkers@.len() == 0 {
            None
        } else {
            self.unparkers@[0].thread
        }
    }

    /// Whom to tell that there is one more task: the thread of the first worker, if
    /// it is known; a worker that waits, if not all are awake; and without workers
    /// the parker of the scheduler, which has the number of the runtime.
    pub open spec fn notice(self) -> Notice {
        Notice {
            thread: self.first_thread(),
            worker: self.active < self.stealers@.len(),
            parker: if self.stealers@.len() == 0 {
                Some(self.id)
            } else {
                None
            },
        }
    }

    /// The shared state of a runtime whose workers have these queues.
    pub fn new(id: u64, stealers: Vec<Worker<u64>>, active: usize) -> (r: Self)
        requires
            all_fifo(stealers@),
        ensures
            r.wf(),
            r.id == id,
            r.queue() == Seq::<u64>::empty(),
            r.stealers == stealers,
            r.unparkers@ == Seq::new(
                stealers@.len(),
                |i: int| ThreadUnpark { thread: None, id: i as usize },
            ),
            r.active == active,
            !r.shutdown,
            r.refusals@.len() == 0,
    {
        let mut unparkers: Vec<ThreadUnpark> = Vec::new();
        let mut i: usize = 0;
        while i < stealers.len()
            invariant
                i <= stealers@.len(),
                unparkers@ == Seq::new(
                    i as nat,
                    |i: int| ThreadUnpark { thread: None, id: i as usize },
                ),
            decreases stealers@.len() - i,
        {
            unparkers.push(ThreadUnpark { thread: None, id: i });
            i += 1;
            assert(unparkers@ =~= Seq::new(
                i as nat,
                |i: int| ThreadUnpark { thread: None, id: i as usize },
            ));
        }
        Shared {
            id,
            injector: injector_new(),
            stealers,
            unparkers,
            active,
            shutdown: false,
            refusals: Vec::new(),
        }
    }

    /// Push a task to the shared queue.
    pub fn push(&mut self, task: Task)
        requires
            old(self).wf(),
        ensures
            final(self).wf(),
            final(self).same_but_queues(*old(self)),
            final(self).locals() == old(self).locals(),
            final(self).stealers@.len() == old(self).stealers@.len(),
            final(self).queue() == old(self).queue().push(task.header),
            final(self).refusals@ == old(self).refusals@,
    {
        injector_push(&mut self.injector, task.into_raw());
    }

    /// Steal a task from the shared queue.
    pub fn steal(&mut self) -> (task: Option<Task>)
        requires
            old(self).wf(),
        ensures
            final(self).wf(),
            final(self).stealers@.len() == old(self).stealers@.len(),
            old(self).injector_gave(*final(self), task),
    {
        match injector_steal(&mut self.injector) {
            Attempt::Empty => success(Steal::Empty),
            Attempt::Success(header) => success(Steal::Success(header)),
            Attempt::Retry(refusal) => {
                self.refusals.push(refusal);
                success(Steal::Retry)
            },
        }
    }

    /// Whom to tell when there is work.
    pub fn notify_worker(&self) -> (notice: Notice)
        ensures
            notice == self.notice(),
    {
        let thread = if self.unparkers.len() > 0 {
            self.unparkers[0].unpark()
        } else {
            None
        };
        let parker = if self.stealers.len() == 0 {
            Some(self.id)
        } else {
            None
        };
        Notice { thread, worker: self.active < self.stealers.len(), parker }
    }
}

/// The task that an attempt to steal gave.
pub fn success(stolen: Steal) -> (task: Option<Task>)
    ensures
        task == (match stolen {
            Steal::Success(header) => Some(Task { header }),
            _ => None,
        }),
{
    match stolen {
        Steal::Success(header) => Some(Task::from_raw(header)),
        Steal::Empty => None,
        Steal::Retry => None,
    }
}

/// Where a worker is in its loop.
#[derive(Debug, Clone, Copy, PartialEq, Eq, Structural)]
pub enum WorkerPhase {
    /// It looks for a task to run.
    Searching,
    /// It found none, and sleeps or is about to.
    Idle,
}

/// What a worker has to do next.
#[derive(Debug, Clone, Copy, PartialEq, Eq, Structural)]
pub enum WorkerStep {
    /// Run the task, and go on.
    Run(Task),
    /// Go on at once.
    Again,
    /// Wait for work or shutdown, and go on.
    Wait,
    /// The loop is over.
    Exit,
}

/// One of the worker threads.
pub struct WorkerThread {
    pub index: usize,
    pub phase: WorkerPhase,
}

/// The shared state after a worker took the front of its own queue.
pub open spec fn own_front_taken(before: Shared, after: Shared, index: int) -> bool {
    &&& after.same_but_queues(before)
    &&& after.queue() == before.queue()
    &&& after.refusals@ == before.refusals@
    &&& after.locals() == without_front(before.locals(), index)
}

impl WorkerThread {
    /// Start a worker: it makes its runtime current on its thread.
    pub fn start(index: usize, shared: &Shared, current: &mut CurrentContext) -> (r: Self)
        ensures
            r == (WorkerThread { index, phase: WorkerPhase::Searching }),
            *final(current) == (CurrentContext { context: Some(shared.id), worker: Some(index) }),
    {
        current.context = Some(shared.id);
        current.worker = Some(index);
        WorkerThread { index, phase: WorkerPhase::Searching }
    }

    /// Take the front of the worker's own queue.
    fn pop(&self, shared: &mut Shared) -> (task: Option<Task>)
        requires
            old(shared).wf(),
            self.index < old(shared).stealers@.len(),
        ensures
            final(shared).wf(),
            final(shared).stealers@.len() == old(shared).stealers@.len(),
            task is Some <==> old(shared).locals()[self.index as int].len() > 0,
            task is Some ==> task->0.header == old(shared).locals()[self.index as int][0],
            task is Some ==> own_front_taken(*old(shared), *final(shared), self.index as int),
            task is None ==> final(shared).alike(*old(shared)),
    {
        let popped = worker_pop(&mut shared.stealers[self.index]);
        proof {
            let before = old(shared).stealers@;
            let after = shared.stealers@;
            let at = self.index as int;
            assert(forall|i: int| 0 <= i < after.len() && i != at ==> after[i] == before[i]);
            if popped is Some {
                assert(contents_of(after) =~= without_front(contents_of(before), at));
            } else {
                assert(contents_of(after) =~= contents_of(before));
            }
        }
        match popped {
            Some(header) => Some(Task::from_raw(header)),
            None => None,
        }
    }

    /// Steal from the other workers, from the next one on.
    pub fn steal_work(shared: &mut Shared, my_index: usize) -> (task: Option<Task>)
        requires
            old(shared).wf(),
            my_index < old(shared).stealers@.len(),
        ensures
            final(shared).wf(),
            final(shared).stealers@.len() == old(shared).stealers@.len(),
            final(shared).same_but_queues(*old(shared)),
            final(shared).queue() == old(shared).queue(),
            final(shared).refusals@ == old(shared).refusals@,
            task == loot(
                old(shared).locals(),
                worker_order(my_index as int, old(shared).stealers@.len()),
            ),
            final(shared).locals() == looted(
                old(shared).locals(),
                worker_order(my_index as int, old(shared).stealers@.len()),
            ),
    {
        let num_workers: usize = shared.stealers.len();
        let start: usize = if my_index + 1 < num_workers {
            my_index + 1
        } else {
            0
        };
        let ghost queues = old(shared).locals();
        let ghost order = worker_order(my_index as int, num_workers as nat);
        proof {
            if my_index + 1 < num_workers {
                vstd::arithmetic::div_mod::lemma_small_mod(
                    (my_index + 1) as nat,
                    num_workers as nat,
                );
            } else {
                vstd::arithmetic::div_mod::lemma_mod_self_0(num_workers as int);
            }
            assert(start as int == (my_index + 1) % num_workers as int);
            assert(order.skip(0) =~= order);
        }
        let mut offset: usize = 0;
        while offset < num_workers - 1
            invariant
                num_workers == shared.stealers@.len(),
                num_workers == old(shared).stealers@.len(),
                0 < num_workers,
                offset <= num_workers - 1,
                start < num_workers,
                start as int == (my_index + 1) % num_workers as int,
                shared.wf(),
                shared.alike(*old(shared)),
                queues == old(shared).locals(),
                order == worker_order(my_index as int, num_workers as nat),
                first_filled(queues, order) == first_filled(queues, order.skip(offset as int)),
            decreases num_workers - 1 - offset,
        {
            let target: usize = if offset < num_workers - start {
                start + offset
            } else {
                offset - (num_workers - start)
            };
            proof {
                lemma_around(start as int, offset as int, num_workers as int);
                assert(order.skip(offset as int)[0] == target);
                assert(order.skip(offset as int).drop_first() =~= order.skip(offset + 1));
            }
            if let Some(header) = steal_at(&mut shared.stealers, target) {
                return Some(Task::from_raw(header));
            }
            offset += 1;
        }
        assert(order.skip(offset as int) =~= Seq::empty());
        None
    }

    /// Look for a task: in the worker's own queue, then with the other workers,
    /// then in the shared queue.
    fn find_task(&self, shared: &mut Shared) -> (task: Option<Task>)
        requires
            old(shared).wf(),
            self.index < old(shared).stealers@.len(),
        ensures
            final(shared).wf(),
            final(shared).stealers@.len() == old(shared).stealers@.len(),
            found_task(*old(shared), *final(shared), self.index as int, task),
    {
        if let Some(task) = self.pop(shared) {
            return Some(task);
        }
        if let Some(task) = Self::steal_work(shared, self.index) {
            return Some(task);
        }
        shared.steal()
    }

    /// Check for work: take a task from the worker's own queue or from the shared
    /// one.
    fn check_for_work(&self, shared: &mut Shared) -> (found: Option<Task>)
        requires
            old(shared).wf(),
            self.index < old(shared).stealers@.len(),
        ensures
            final(shared).wf(),
            final(shared).stealers@.len() == old(shared).stealers@.len(),
            found_at_check(*old(shared), *final(shared), self.index as int, found),
    {
        if let Some(task) = self.pop(shared) {
            return Some(task);
        }
        shared.steal()
    }

    /// What a search comes to: a task that was found is run, and a worker that
    /// found none becomes idle.
    pub fn after_search(&mut self, shared: &mut Shared, found: Option<Task>) -> (step: WorkerStep)
        ensures
            final(self).index == old(self).index,
            match found {
                Some(task) => {
                    &&& step == WorkerStep::Run(task)
                    &&& final(self).phase == old(self).phase
                    &&& *final(shared) == *old(shared)
                },
                None => {
                    &&& step == WorkerStep::Again
                    &&& final(self).phase is Idle
                    &&& *final(shared) == (Shared {
                        active: one_fewer(old(shared).active),
                        ..*old(shared)
                    })
                },
            },
    {
        if let Some(task) = found {
            return WorkerStep::Run(task);
        }
        shared.active = shared.active.wrapping_sub(1);
        self.phase = WorkerPhase::Idle;
        WorkerStep::Again
    }

    /// What a check for work comes to: a task that was found is run, and the worker
    /// searches again, as it does at shutdown; else it waits, unless the shared
    /// queue holds a task that could not be had.
    pub fn after_check(&mut self, shared: &mut Shared, found: Option<Task>) -> (step: WorkerStep)
        ensures
            final(self).index == old(self).index,
            if found is None && !old(shared).shutdown {
                &&& step == (if old(shared).queue().len() == 0 {
                    WorkerStep::Wait
                } else {
                    WorkerStep::Again
                })
                &&& final(self).phase == old(self).phase
                &&& *final(shared) == *old(shared)
            } else {
                &&& step == (match found {
                    Some(task) => WorkerStep::Run(task),
                    None => WorkerStep::Again,
                })
                &&& final(self).phase is Searching
                &&& *final(shared) == (Shared {
                    active: one_more(old(shared).active),
                    ..*old(shared)
                })
            },
    {
        if found.is_none() && !shared.shutdown {
            return if injector_is_empty(&shared.injector) {
                WorkerStep::Wait
            } else {
                WorkerStep::Again
            };
        }
        shared.active = shared.active.wrapping_add(1);
        self.phase = WorkerPhase::Searching;
        match found {
            Some(task) => WorkerStep::Run(task),
            None => WorkerStep::Again,
        }
    }

    /// One turn of the worker's loop. The caller does what it returns and calls
    /// again, until the loop is over.
    pub fn run(&mut self, shared: &mut Shared, current: &mut CurrentContext) -> (step: WorkerStep)
        requires
            old(shared).wf(),
            old(self).index < old(shared).stealers@.len(),
        ensures
            final(shared).wf(),
            final(shared).stealers@.len() == old(shared).stealers@.len(),
            final(self).index == old(self).index,
            *final(current) == (if step is Exit {
                CurrentContext { context: None, worker: None }
            } else {
                *old(current)
            }),
            match old(self).phase {
                WorkerPhase::Searching => searched(
                    *old(shared),
                    *final(shared),
                    old(self).index as int,
                    final(self).phase,
                    step,
                ),
                WorkerPhase::Idle => idled(
                    *old(shared),
                    *final(shared),
                    old(self).index as int,
                    final(self).phase,
                    step,
                ),
            },
    {
        match self.phase {
            WorkerPhase::Searching => {
                if shared.shutdown {
                    current.context = None;
                    current.worker = None;
                    return WorkerStep::Exit;
                }
                let found = self.find_task(shared);
                self.after_search(shared, found)
            },
            WorkerPhase::Idle => {
                let found = self.check_for_work(shared);
                self.after_check(shared, found)
            },
        }
    }
}

/// Whether a worker that looked for a task found this one and left the shared
/// state like this: the front of its own queue if there is one; else what the
/// other workers have, in its order; else what the shared queue gives.
pub open spec fn found_task(before: Shared, after: Shared, index: int, task: Option<Task>) -> bool {
    let order = worker_order(index, before.stealers@.len());
    if before.locals()[index].len() > 0 {
        &&& task == Some(Task { header: before.locals()[index][0] })
        &&& own_front_taken(before, after, index)
    } else if loot(before.locals(), order) is Some {
        &&& task == loot(before.locals(), order)
        &&& after.same_but_queues(before)
        &&& after.queue() == before.queue()
        &&& after.refusals@ == before.refusals@
        &&& after.locals() == looted(before.locals(), order)
    } else {
        before.injector_gave(after, task)
    }
}

/// Whether a worker that checked for work found the task and left the shared
/// state like this: the front of its own queue if there is one; else what the
/// shared queue gives.
pub open spec fn found_at_check(
    before: Shared,
    after: Shared,
    index: int,
    found: Option<Task>,
) -> bool {
    if before.locals()[index].len() > 0 {
        &&& found == Some(Task { header: before.locals()[index][0] })
        &&& own_front_taken(before, after, index)
    } else {
        before.injector_gave(after, found)
    }
}

/// The number of active workers when there is one fewer.
pub open spec fn one_fewer(active: usize) -> usize {
    if active == 0 {
        usize::MAX
    } else {
        (active - 1) as usize
    }
}

/// The number of active workers when there is one more.
pub open spec fn one_more(active: usize) -> usize {
    if active == usize::MAX {
        0
    } else {
        (active + 1) as usize
    }
}

/// One turn of a worker that searches: it ends at shutdown; it runs what it
/// finds; and it becomes idle if it finds nothing.
pub open spec fn searched(
    before: Shared,
    after: Shared,
    index: int,
    phase: WorkerPhase,
    step: WorkerStep,
) -> bool {
    if before.shutdown {
        &&& step is Exit
        &&& phase is Searching
        &&& after == before
    } else {
        match step {
            WorkerStep::Run(task) => {
                &&& phase is Searching
                &&& found_task(before, after, index, Some(task))
            },
            WorkerStep::Again => {
                &&& phase is Idle
                &&& found_task(before, Shared { active: before.active, ..after }, index, None)
                &&& after.active == one_fewer(before.active)
            },
            _ => false,
        }
    }
}

/// One turn of an idle worker: it runs what it finds and searches again, as it
/// does at shutdown; else it waits, unless the shared queue holds a task that could
/// not be had.
pub open spec fn idled(
    before: Shared,
    after: Shared,
    index: int,
    phase: WorkerPhase,
    step: WorkerStep,
) -> bool {
    match step {
        WorkerStep::Wait => {
            &&& phase is Idle
            &&& !before.shutdown
            &&& before.queue().len() == 0
            &&& found_at_check(before, after, index, None)
        },
        WorkerStep::Run(task) => {
            &&& phase is Searching
            &&& found_at_check(before, Shared { active: before.active, ..after }, index, Some(task))
            &&& after.active == one_more(before.active)
        },
        WorkerStep::Again => if before.shutdown {
            &&& phase is Searching
            &&& found_at_check(before, Shared { active: before.active, ..after }, index, None)
            &&& after.active == one_more(before.active)
        } else {
            &&& phase is Idle
            &&& before.queue().len() > 0
            &&& found_at_check(before, after, index, None)
        },
        WorkerStep::Exit => false,
    }
}

/// A sum of two numbers up to `count`, around the end.
pub(crate) proof fn lemma_around(start: int, offset: int, count: int)
    requires
        0 <= start < count,
        0 <= offset <= count,
    ensures
        (start + offset) % count == (if start + offset < count {
            start + offset
        } else {
            start + offset - count
        }),
{
    if start + offset < count {
        vstd::arithmetic::div_mod::lemma_small_mod((start + offset) as nat, count as nat);
    } else {
        vstd::arithmetic::div_mod::lemma_mod_sub_multiples_vanish(start + offset, count);
        vstd::arithmetic::div_mod::lemma_small_mod((start + offset - count) as nat, count as nat);
    }
}

/// The parker of a thread that blocks on a future.
pub struct BlockOnParker {
    /// The number by which wakers know the parker.
    pub id: u64,
    /// Whether there is a notification.
    pub unparked: bool,
}

impl BlockOnParker {
    /// The parker after one step of parking, and the step.
    pub open spec fn parks(self) -> (Self, ParkStep) {
        (
            BlockOnParker { unparked: false, ..self },
            if self.unparked {
                ParkStep::Return
            } else {
                ParkStep::ParkThread
            },
        )
    }

    /// The parker after it was unparked, and whether the thread has to be.
    pub open spec fn unparks(self) -> (Self, bool) {
        (BlockOnParker { unparked: true, ..self }, !self.unparked)
    }

    /// A parker for the current thread.
    pub fn new(id: u64) -> (r: Self)
        ensures
            r == (BlockOnParker { id, unparked: false }),
    {
        BlockOnParker { id, unparked: false }
    }

    /// Park: a notification is taken and parking is over; without one the thread
    /// has to be parked, and then to park here again.
    pub fn park(&mut self) -> (step: ParkStep)
        ensures
            (*final(self), step) == old(self).parks(),
    {
        let unparked = self.unparked;
        self.unparked = false;
        if !unparked {
            ParkStep::ParkThread
        } else {
            ParkStep::Return
        }
    }

    /// Leave a notification. Returns true if the thread has to be unparked.
    pub fn unpark(&mut self) -> (unpark: bool)
        ensures
            (*final(self), unpark) == old(self).unparks(),
    {
        let unparked = self.unparked;
        self.unparked = true;
        !unparked
    }

    /// The waker that unparks.
    pub fn waker(&self) -> (r: Waker)
        ensures
            r == (Waker { data: self.id, vtable: WakerVtable::BlockOn }),
    {
        Waker { data: self.id, vtable: WakerVtable::BlockOn }
    }

    /// The waker of this parker is woken, by value or by reference: the same as
    /// [`BlockOnParker::unpark`].
    pub fn wake(&mut self, waker: &Waker) -> (unpark: bool)
        requires
            *waker == (Waker { data: old(self).id, vtable: WakerVtable::BlockOn }),
        ensures
            (*final(self), unpark) == old(self).unparks(),
    {
        self.unpark()
    }
}

/// What a thread that blocks on a future has to do next.
pub enum BlockOnStep<T> {
    /// The future is ready: return its output.
    Return(T),
    /// Run the task, and go on.
    Run(Task),
    /// Park, and go on when parking is over.
    Park(ParkStep),
    /// Yield the thread, and go on.
    Yield,
}

/// What a thread does that blocks on a pending future and looked for a task: run
/// the one that it found; else park if the shared queue is empty, and yield if it
/// is not.
pub fn help_or_park<T>(parker: &mut BlockOnParker, found: Option<Task>, idle: bool) -> (step:
    BlockOnStep<T>)
    ensures
        match found {
            Some(task) => {
                &&& step == BlockOnStep::<T>::Run(task)
                &&& *final(parker) == *old(parker)
            },
            None => if idle {
                &&& *final(parker) == old(parker).parks().0
                &&& step == BlockOnStep::<T>::Park(old(parker).parks().1)
            } else {
                &&& step == BlockOnStep::<T>::Yield
                &&& *final(parker) == *old(parker)
            },
        },
{
    if let Some(task) = found {
        BlockOnStep::Run(task)
    } else if idle {
        BlockOnStep::Park(parker.park())
    } else {
        BlockOnStep::Yield
    }
}

/// What a shutdown asks for, once the workers that wait were all notified.
pub struct Shutdown {
    /// The threads to unpark.
    pub unpark: Vec<u64>,
    /// The workers to wait for.
    pub join: Vec<usize>,
}

/// The scheduler with several worker threads.
pub struct MultiThread {
    pub shared: Shared,
    pub handle: Handle,
    /// The workers that run, by their indices.
    pub workers: Vec<usize>,
}

impl MultiThread {
    /// The worker queues are first-in first-out, and the handle is that of this
    /// scheduler.
    pub open spec fn wf(self) -> bool {
        &&& self.shared.wf()
        &&& self.handle == (Handle { shared: self.shared.id, local: false })
    }

    /// Whether two schedulers differ in nothing but the shared state.
    pub open spec fn same_but_shared(self, other: Self) -> bool {
        &&& self.handle == other.handle
        &&& self.workers == other.workers
    }

    /// The order in which a thread that is no worker tries the worker queues.
    pub open spec fn order(self) -> Seq<int> {
        outside_order(self.shared.stealers@.len())
    }

    /// A scheduler whose workers, as many as `num_threads`, have empty queues.
    pub fn new(id: u64, num_threads: usize) -> (r: Self)
        ensures
            r.wf(),
            r.shared.id == id,
            r.shared.queue() == Seq::<u64>::empty(),
            r.shared.stealers@.len() == num_threads,
            r.shared.locals() == Seq::new(num_threads as nat, |i: int| Seq::<u64>::empty()),
            r.shared.unparkers@ == Seq::new(
                num_threads as nat,
                |i: int| ThreadUnpark { thread: None, id: i as usize },
            ),
            r.shared.active == num_threads,
            !r.shared.shutdown,
            r.workers@ == Seq::new(num_threads as nat, |i: int| i as usize),
    {
        let mut stealers: Vec<Worker<u64>> = Vec::with_capacity(num_threads);
        let mut workers: Vec<usize> = Vec::with_capacity(num_threads);
        let mut i: usize = 0;
        while i < num_threads
            invariant
                i <= num_threads,
                all_fifo(stealers@),
                contents_of(stealers@) == Seq::new(i as nat, |i: int| Seq::<u64>::empty()),
                workers@ == Seq::new(i as nat, |i: int| i as usize),
            decreases num_threads - i,
        {
            let ghost before = stealers@;
            let worker = worker_new_fifo();
            stealers.push(worker);
            workers.push(i);
            i += 1;
            proof {
                assert(contents_of(stealers@) =~= contents_of(before).push(Seq::<u64>::empty()));
                assert(contents_of(stealers@) =~= Seq::new(
                    i as nat,
                    |i: int| Seq::<u64>::empty(),
                ));
                assert(workers@ =~= Seq::new(i as nat, |i: int| i as usize));
            }
        }
        assert(contents_of(stealers@).len() == stealers@.len());
        let shared = Shared::new(id, stealers, num_threads);
        MultiThread { shared, handle: Handle { shared: id, local: false }, workers }
    }

    /// Begin to block on a future: the runtime becomes current on the thread
    /// until the guard is dropped.
    pub fn start_block_on(&self, id: u64, current: &mut CurrentContext) -> (r: (
        BlockOnParker,
        ContextGuard,
    ))
        ensures
            r.0 == (BlockOnParker { id, unparked: false }),
            r.1 == ContextGuard::remembering(*old(current)),
            *final(current) == (CurrentContext { context: Some(self.shared.id), worker: None }),
    {
        (BlockOnParker::new(id), ContextGuard::new(current, self.shared.id))
    }

    /// One turn of blocking on a future that was polled just now. While it is
    /// pending the thread helps with tasks; it parks when there are none.
    pub fn block_on<T>(&mut self, parker: &mut BlockOnParker, polled: Poll<T>) -> (step:
        BlockOnStep<T>)
        requires
            old(self).wf(),
        ensures
            final(self).wf(),
            final(self).same_but_shared(*old(self)),
            block_turn(
                old(self).shared,
                final(self).shared,
                *old(parker),
                *final(parker),
                polled,
                step,
            ),
            polled matches Poll::Ready(output) ==> {
                &&& step == BlockOnStep::Return(output)
                &&& final(self).shared == old(self).shared
                &&& *final(parker) == *old(parker)
            },
    {
        match polled {
            Poll::Ready(output) => BlockOnStep::Return(output),
            Poll::Pending => {
                let found = self.steal_work();
                let idle = injector_is_empty(&self.shared.injector);
                help_or_park(parker, found, idle)
            },
        }
    }

    /// Steal a task: from the workers in their order, and else from the shared
    /// queue.
    pub fn steal_work(&mut self) -> (task: Option<Task>)
        requires
            old(self).wf(),
        ensures
            final(self).wf(),
            final(self).same_but_shared(*old(self)),
            final(self).shared.stealers@.len() == old(self).shared.stealers@.len(),
            stolen_from_outside(old(self).shared, final(self).shared, task),
    {
        let ghost queues = old(self).shared.locals();
        let ghost order = old(self).order();
        assert(order.skip(0) =~= order);
        let mut i: usize = 0;
        while i < self.shared.stealers.len()
            invariant
                i <= self.shared.stealers@.len(),
                self.wf(),
                self.same_but_shared(*old(self)),
                self.shared.stealers@.len() == old(self).shared.stealers@.len(),
                self.shared.alike(old(self).shared),
                queues == old(self).shared.locals(),
                order == old(self).order(),
                first_filled(queues, order) == first_filled(queues, order.skip(i as int)),
            decreases self.shared.stealers@.len() - i,
        {
            proof {
                assert(order.skip(i as int)[0] == i);
                assert(order.skip(i as int).drop_first() =~= order.skip(i + 1));
            }
            if let Some(header) = steal_at(&mut self.shared.stealers, i) {
                return Some(Task::from_raw(header));
            }
            i += 1;
        }
        assert(order.skip(i as int) =~= Seq::empty());
        self.shared.steal()
    }

    /// Spawn a task: it goes to the shared queue. Returns its join handle and
    /// whom to tell.
    pub fn spawn<F, T, W>(&mut self, tasks: &mut Tasks<F, T, W>, future: F) -> (r: (
        JoinHandle<T>,
        Notice,
    ))
        requires
            old(self).wf(),
            old(tasks).wf(),
            old(tasks).next_key() < u64::MAX,
        ensures
            final(self).wf(),
            final(self).same_but_shared(*old(self)),
            final(self).shared.same_but_queues(old(self).shared),
            final(self).shared.locals() == old(self).shared.locals(),
            final(self).shared.refusals@ == old(self).shared.refusals@,
            final(self).shared.queue() == old(self).shared.queue().push(r.0.target()),
            r.1 == old(self).shared.notice(),
            final(tasks).wf(),
            r.0.target() == old(tasks).next_key(),
            final(tasks).next_key() == r.0.target() + 1,
            final(tasks)@ == old(tasks)@.insert(
                r.0.target(),
                fresh_header(future, SchedulerData { shared: None, thread: None }),
            ),
    {
        let (task, join) = create_task(tasks, future);
        self.shared.push(task);
        let notice = self.notify_worker();
        (join, notice)
    }

    /// A handle to the runtime.
    pub fn handle(&self) -> (r: Handle)
        ensures
            r == self.handle,
    {
        self.handle
    }

    /// Shut down: the caller notifies all workers that wait, and then does what
    /// is returned. No runtime is current any more.
    pub fn shutdown(&mut self, current: &mut CurrentContext) -> (r: Shutdown)
        requires
            old(self).wf(),
        ensures
            final(self).wf(),
            final(self).handle == old(self).handle,
            final(self).shared == (Shared { shutdown: true, ..old(self).shared }),
            r.unpark@ == known_threads(old(self).shared.unparkers@),
            r.join@ == old(self).workers@,
            final(self).workers@ == Seq::<usize>::empty(),
            *final(current) == (CurrentContext { context: None, ..*old(current) }),
    {
        self.shared.shutdown = true;
        let mut unpark: Vec<u64> = Vec::new();
        let mut i: usize = 0;
        let ghost all = self.shared.unparkers@;
        assert(all.take(0) =~= Seq::empty());
        while i < self.shared.unparkers.len()
            invariant
                i <= self.shared.unparkers@.len(),
                all == self.shared.unparkers@,
                unpark@ == known_threads(all.take(i as int)),
            decreases self.shared.unparkers@.len() - i,
        {
            proof {
                assert(all.take(i + 1).drop_last() =~= all.take(i as int));
                assert(all.take(i + 1).last() == all[i as int]);
            }
            if let Some(thread) = self.shared.unparkers[i].unpark() {
                unpark.push(thread);
            }
            i += 1;
        }
        assert(all.take(i as int) =~= all);
        let mut join: Vec<usize> = Vec::new();
        join.append(&mut self.workers);
        current.context = None;
        Shutdown { unpark, join }
    }

    /// Whom to tell when there is work.
    pub fn notify_worker(&self) -> (notice: Notice)
        ensures
            notice == self.shared.notice(),
    {
        self.shared.notify_worker()
    }
}

/// Whether a thread that is no worker stole the task and left the shared
/// state like this: what the workers have, in their order; else what the shared
/// queue gives.
pub open spec fn stolen_from_outside(before: Shared, after: Shared, task: Option<Task>) -> bool {
    let order = outside_order(before.stealers@.len());
    if loot(before.locals(), order) is Some {
        &&& task == loot(before.locals(), order)
        &&& after.same_but_queues(before)
        &&& after.queue() == before.queue()
        &&& after.refusals@ == before.refusals@
        &&& after.locals() == looted(before.locals(), order)
    } else {
        before.injector_gave(after, task)
    }
}

/// One turn of blocking on a future that was polled just now: return its output if
/// there is one; else see [`blocked`].
pub open spec fn block_turn<T>(
    before: Shared,
    after: Shared,
    parker: BlockOnParker,
    parker_after: BlockOnParker,
    polled: Poll<T>,
    step: BlockOnStep<T>,
) -> bool {
    match polled {
        Poll::Ready(output) => {
            &&& step == BlockOnStep::Return(output)
            &&& after == before
            &&& parker_after == parker
        },
        Poll::Pending => blocked(before, after, parker, parker_after, step),
    }
}

/// One turn of blocking on a pending future: run a task if one can be stolen;
/// park if there is none; yield if there is one that could not be had.
pub open spec fn blocked<T>(
    before: Shared,
    after: Shared,
    parker: BlockOnParker,
    parker_after: BlockOnParker,
    step: BlockOnStep<T>,
) -> bool {
    match step {
        BlockOnStep::Run(task) => {
            &&& stolen_from_outside(before, after, Some(task))
            &&& parker_after == parker
        },
        BlockOnStep::Park(park) => {
            &&& stolen_from_outside(before, after, None)
            &&& before.queue().len() == 0
            &&& (parker_after, park) == parker.parks()
        },
        BlockOnStep::Yield => {
            &&& stolen_from_outside(before, after, None)
            &&& before.queue().len() > 0
            &&& parker_after == parker
        },
        BlockOnStep::Return(_) => false,
    }
}

} // verus!

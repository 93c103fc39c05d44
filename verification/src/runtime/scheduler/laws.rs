//! What holds of the schedulers through many steps.

use crate::runtime::handle::{helped, Handle};
use crate::runtime::park::ParkStep;
use crate::runtime::scheduler::current_thread::CurrentThread;
use crate::runtime::scheduler::multi_thread::{
    blocked, first_filled, idled, lemma_around, loot, looted, outside_order, searched,
    without_front, worker_order, BlockOnParker, BlockOnStep, ContextGuard, CurrentContext, Shared,
    WorkerPhase, WorkerStep,
};
use crate::task::{Poll, Task};
use vstd::multiset::Multiset;
use vstd::prelude::*;

verus! {

/// A worker tries every other worker exactly once, and never itself.
pub proof fn law_worker_tries_every_other_once(my_index: int, count: nat)
    requires
        0 <= my_index < count,
    ensures
        worker_order(my_index, count).len() == count - 1,
        worker_order(my_index, count).no_duplicates(),
        forall|i: int|
            worker_order(my_index, count).contains(i) <==> 0 <= i < count && i != my_index,
{
    let order = worker_order(my_index, count);
    let n = count as int;
    let start = (my_index + 1) % n;
    lemma_around(my_index, 1, n);
    assert forall|k: int| 0 <= k < n - 1 implies #[trigger] order[k] == (if start + k < n {
        start + k
    } else {
        start + k - n
    }) by {
        lemma_around(start, k, n);
    }
    assert forall|i: int| 0 <= i < n && i != my_index implies order.contains(i) by {
        let k = if i >= start {
            i - start
        } else {
            i - start + n
        };
        assert(order[k] == i);
    }
    assert forall|i: int| order.contains(i) implies 0 <= i < n && i != my_index by {
        let k = choose|k: int| 0 <= k < order.len() && order[k] == i;
        assert(order[k] == i);
    }
}

/// A thief goes away with nothing only if all queues that it tried are empty;
/// and else robs the first one in its order that is not.
pub proof fn law_thief_finds_the_first_filled(queues: Seq<Seq<u64>>, order: Seq<int>)
    ensures
        first_filled(queues, order) is None <==> forall|k: int|
            0 <= k < order.len() ==> queues[#[trigger] order[k]].len() == 0,
        first_filled(queues, order) is Some ==> exists|k: int|
            {
                &&& 0 <= k < order.len()
                &&& #[trigger] order[k] == first_filled(queues, order)->0
                &&& queues[order[k]].len() > 0
                &&& forall|j: int| 0 <= j < k ==> queues[#[trigger] order[j]].len() == 0
            },
    decreases order.len(),
{
    if order.len() > 0 {
        let rest = order.drop_first();
        law_thief_finds_the_first_filled(queues, rest);
        assert forall|k: int| 0 < k < order.len() implies #[trigger] order[k] == rest[k - 1] by {}
        assert forall|k: int| 0 <= k < rest.len() implies #[trigger] rest[k] == order[k + 1] by {}
        if queues[order[0]].len() > 0 {
            assert(order[0] == first_filled(queues, order)->0);
        } else if first_filled(queues, rest) is Some {
            let k = choose|k: int|
                {
                    &&& 0 <= k < rest.len()
                    &&& #[trigger] rest[k] == first_filled(queues, rest)->0
                    &&& queues[rest[k]].len() > 0
                    &&& forall|j: int| 0 <= j < k ==> queues[#[trigger] rest[j]].len() == 0
                };
            assert(order[k + 1] == first_filled(queues, order)->0);
            assert forall|j: int| 0 <= j < k + 1 implies queues[#[trigger] order[j]].len()
                == 0 by {
                if j > 0 {
                    assert(order[j] == rest[j - 1]);
                }
            }
        } else {
            assert forall|k: int| 0 <= k < order.len() implies queues[#[trigger] order[k]].len()
                == 0 by {
                if k > 0 {
                    assert(order[k] == rest[k - 1]);
                }
            }
        }
    }
}

/// All tasks in some queues.
pub open spec fn all_tasks(queues: Seq<Seq<u64>>) -> Multiset<u64>
    decreases queues.len(),
{
    if queues.len() == 0 {
        Multiset::empty()
    } else {
        all_tasks(queues.drop_last()).add(queues.last().to_multiset())
    }
}

proof fn lemma_front_counted(queues: Seq<Seq<u64>>, at: int)
    requires
        0 <= at < queues.len(),
        queues[at].len() > 0,
    ensures
        all_tasks(queues) == all_tasks(without_front(queues, at)).insert(queues[at][0]),
    decreases queues.len(),
{
    let after = without_front(queues, at);
    let rest = queues.drop_last();
    if at == queues.len() - 1 {
        assert(after.drop_last() =~= rest);
        lemma_front(queues.last());
        assert(all_tasks(queues) =~= all_tasks(after).insert(queues[at][0]));
    } else {
        lemma_front_counted(rest, at);
        assert(after.drop_last() =~= without_front(rest, at));
        assert(all_tasks(queues) =~= all_tasks(after).insert(queues[at][0]));
    }
}

/// Stealing moves a task and neither loses nor doubles one: what was in the
/// queues is what is left in them, and the stolen task.
pub proof fn law_steal_conserves_tasks(queues: Seq<Seq<u64>>, order: Seq<int>)
    requires
        forall|k: int| 0 <= k < order.len() ==> 0 <= #[trigger] order[k] < queues.len(),
    ensures
        all_tasks(queues) == (match loot(queues, order) {
            Some(task) => all_tasks(looted(queues, order)).insert(task.header),
            None => all_tasks(looted(queues, order)),
        }),
{
    law_thief_finds_the_first_filled(queues, order);
    if let Some(at) = first_filled(queues, order) {
        lemma_front_counted(queues, at);
    }
}

/// Something that happens to the shared queue, or to that of a thread.
pub enum QueueEvent<A> {
    /// A task is pushed.
    Push(A),
    /// The oldest task is taken.
    Take,
}

/// The queue after some events, each of which takes only from a queue that is
/// not empty.
pub open spec fn queue_after<A>(queue: Seq<A>, events: Seq<QueueEvent<A>>) -> Seq<A>
    decreases events.len(),
{
    if events.len() == 0 {
        queue
    } else {
        let before = queue_after(queue, events.drop_last());
        match events.last() {
            QueueEvent::Push(task) => before.push(task),
            QueueEvent::Take => before.drop_first(),
        }
    }
}

/// What is pushed by some events.
pub open spec fn pushes<A>(events: Seq<QueueEvent<A>>) -> Seq<A>
    decreases events.len(),
{
    if events.len() == 0 {
        Seq::empty()
    } else {
        match events.last() {
            QueueEvent::Push(task) => pushes(events.drop_last()).push(task),
            QueueEvent::Take => pushes(events.drop_last()),
        }
    }
}

/// What is taken by some events, in order.
pub open spec fn takes<A>(queue: Seq<A>, events: Seq<QueueEvent<A>>) -> Seq<A>
    decreases events.len(),
{
    if events.len() == 0 {
        Seq::empty()
    } else {
        let before = takes(queue, events.drop_last());
        match events.last() {
            QueueEvent::Push(_) => before,
            QueueEvent::Take => before.push(queue_after(queue, events.drop_last())[0]),
        }
    }
}

/// Whether each of some events that takes finds a task.
pub open spec fn takes_succeed<A>(queue: Seq<A>, events: Seq<QueueEvent<A>>) -> bool
    decreases events.len(),
{
    events.len() == 0 || {
        &&& takes_succeed(queue, events.drop_last())
        &&& events.last() is Take ==> queue_after(queue, events.drop_last()).len() > 0
    }
}

/// Tasks leave a queue in the order in which they came, whoever pushes
/// and whoever takes: what was taken and what is left is what was there and what
/// was pushed.
pub proof fn law_tasks_are_taken_in_order<A>(queue: Seq<A>, events: Seq<QueueEvent<A>>)
    requires
        takes_succeed(queue, events),
    ensures
        takes(queue, events) + queue_after(queue, events) == queue + pushes(events),
    decreases events.len(),
{
    if events.len() > 0 {
        let before = events.drop_last();
        law_tasks_are_taken_in_order(queue, before);
        let all = takes(queue, before) + queue_after(queue, before);
        match events.last() {
            QueueEvent::Push(task) => {
                assert(takes(queue, events) + queue_after(queue, events) =~= all.push(task));
                assert(queue + pushes(events) =~= (queue + pushes(before)).push(task));
            },
            QueueEvent::Take => {
                assert(takes(queue, events) + queue_after(queue, events) =~= all);
            },
        }
    } else {
        assert(takes(queue, events) + queue_after(queue, events) =~= queue + pushes(events));
    }
}

/// How many workers are searching.
pub open spec fn searching(phases: Seq<WorkerPhase>) -> nat
    decreases phases.len(),
{
    if phases.len() == 0 {
        0
    } else {
        searching(phases.drop_last()) + (if phases.last() is Searching {
            1nat
        } else {
            0nat
        })
    }
}

proof fn lemma_searching_update(phases: Seq<WorkerPhase>, index: int, phase: WorkerPhase)
    requires
        0 <= index < phases.len(),
    ensures
        searching(phases.update(index, phase)) == searching(phases) - (if phases[index] is Searching {
            1int
        } else {
            0
        }) + (if phase is Searching {
            1int
        } else {
            0
        }),
        phases[index] is Searching ==> searching(phases) > 0,
        !(phases[index] is Searching) ==> searching(phases) < phases.len(),
        searching(phases) <= phases.len(),
    decreases phases.len(),
{
    let after = phases.update(index, phase);
    let rest = phases.drop_last();
    lemma_searching_bound(rest);
    if index == phases.len() - 1 {
        assert(after.drop_last() =~= rest);
    } else {
        assert(after.drop_last() =~= rest.update(index, phase));
        lemma_searching_update(rest, index, phase);
    }
}

proof fn lemma_searching_bound(phases: Seq<WorkerPhase>)
    ensures
        searching(phases) <= phases.len(),
    decreases phases.len(),
{
    if phases.len() > 0 {
        lemma_searching_bound(phases.drop_last());
    }
}

/// The count of active workers is that of the workers that search, and every
/// turn of every worker keeps it so.
pub proof fn law_active_counts_searching_workers(
    phases: Seq<WorkerPhase>,
    index: int,
    before: Shared,
    after: Shared,
    phase: WorkerPhase,
    step: WorkerStep,
)
    requires
        0 <= index < phases.len() <= usize::MAX,
        before.active == searching(phases),
        match phases[index] {
            WorkerPhase::Searching => searched(before, after, index, phase, step),
            WorkerPhase::Idle => idled(before, after, index, phase, step),
        },
    ensures
        after.active == searching(phases.update(index, phase)),
{
    lemma_searching_update(phases, index, phase);
}

/// A worker that waits is notified when there is one more task: whoever pushes one
/// is told to, as long as not all workers are searching.
pub proof fn law_waiting_worker_is_notified(phases: Seq<WorkerPhase>, index: int, shared: Shared)
    requires
        0 <= index < phases.len() == shared.stealers@.len(),
        phases[index] is Idle,
        shared.active == searching(phases),
    ensures
        shared.notice().worker,
{
    lemma_searching_update(phases, index, WorkerPhase::Idle);
}

/// Shutdown ends every worker: an idle one searches from its next turn on, and the
/// turn of one that searches is its last.
pub proof fn law_shutdown_ends_workers(
    before: Shared,
    after: Shared,
    index: int,
    phase: WorkerPhase,
    step: WorkerStep,
)
    requires
        before.shutdown,
    ensures
        idled(before, after, index, phase, step) ==> phase is Searching && after.shutdown,
        searched(before, after, index, phase, step) ==> step is Exit,
{
}

/// Every handle of a runtime sees that it was shut down, whichever way it was got.
pub proof fn law_shutdown_is_seen_by_every_handle(handle: Handle, shared: Shared)
    ensures
        handle.sees_shutdown((Shared { shutdown: true, ..shared }), true),
        !handle.local ==> handle.sees_shutdown((Shared { shutdown: true, ..shared }), false),
{
}

/// All tasks that are in a queue.
pub open spec fn queued(shared: Shared) -> Multiset<u64> {
    all_tasks(shared.locals()).add(shared.queue().to_multiset())
}

/// The front of a queue is one of its tasks.
proof fn lemma_front(queue: Seq<u64>)
    requires
        queue.len() > 0,
    ensures
        queue.to_multiset() == queue.drop_first().to_multiset().insert(queue[0]),
{
    vstd::seq_lib::to_multiset_remove(queue, 0);
    assert(queue.remove(0) =~= queue.drop_first());
    queue.to_multiset_ensures();
    assert(queue.contains(queue[0]));
    assert(queue.to_multiset() =~= queue.drop_first().to_multiset().insert(queue[0]));
}

/// What the shared queue gives was in it, and all else is left.
proof fn lemma_given(before: Shared, after: Shared, task: Option<Task>)
    requires
        before.injector_gave(after, task),
    ensures
        queued(before) == (match task {
            Some(task) => queued(after).insert(task.header),
            None => queued(after),
        }),
{
    if let Some(given) = task {
        lemma_front(before.queue());
        assert(queued(before) =~= queued(after).insert(given.header));
    }
}

/// A worker runs every task that it takes from a queue, and loses none: what was
/// in the queues before its turn is what is in them after it, and the task that it
/// is told to run.
pub proof fn law_worker_runs_what_it_takes(
    before: Shared,
    after: Shared,
    index: int,
    phase: WorkerPhase,
    step: WorkerStep,
)
    requires
        0 <= index < before.stealers@.len(),
        searched(before, after, index, phase, step) || idled(before, after, index, phase, step),
    ensures
        queued(before) == (match step {
            WorkerStep::Run(task) => queued(after).insert(task.header),
            _ => queued(after),
        }),
{
    let count = before.stealers@.len();
    let order = worker_order(index, count);
    let same = Shared { active: before.active, ..after };
    assert(before.locals().len() == count);
    assert(queued(same) == queued(after));
    if !(step is Exit) {
        let found = match step {
            WorkerStep::Run(task) => Some(task),
            _ => None,
        };
        if before.locals()[index].len() > 0 {
            lemma_front_counted(before.locals(), index);
            assert(found is Some ==> queued(before) =~= queued(after).insert(found->0.header));
        } else if searched(before, after, index, phase, step) && loot(before.locals(), order) is Some {
            law_worker_tries_every_other_once(index, count);
            assert forall|k: int| 0 <= k < order.len() implies 0 <= #[trigger] order[k]
                < before.locals().len() by {
                assert(order.contains(order[k]));
            }
            law_steal_conserves_tasks(before.locals(), order);
            assert(found is Some ==> queued(before) =~= queued(after).insert(found->0.header));
        } else if before.injector_gave(after, found) {
            lemma_given(before, after, found);
        } else {
            lemma_given(before, same, found);
        }
    }
}

/// A thread that blocks on a future runs every task that it takes from a queue,
/// and loses none.
pub proof fn law_blocked_thread_runs_what_it_takes<T>(
    before: Shared,
    after: Shared,
    parker: BlockOnParker,
    parker_after: BlockOnParker,
    step: BlockOnStep<T>,
)
    requires
        blocked(before, after, parker, parker_after, step),
    ensures
        queued(before) == (match step {
            BlockOnStep::Run(task) => queued(after).insert(task.header),
            _ => queued(after),
        }),
{
    let order = outside_order(before.stealers@.len());
    assert(before.locals().len() == before.stealers@.len());
    if loot(before.locals(), order) is Some {
        law_steal_conserves_tasks(before.locals(), order);
        if let BlockOnStep::Run(task) = step {
            assert(queued(before) =~= queued(after).insert(task.header));
        }
    } else if let BlockOnStep::Run(task) = step {
        lemma_given(before, after, Some(task));
    } else {
        lemma_given(before, after, None);
    }
}

/// A thread that blocks on a future with a handle runs every task that it takes
/// from a queue, and loses none.
pub proof fn law_helping_thread_runs_what_it_takes<T>(
    before: Shared,
    after: Shared,
    polled: Option<Poll<T>>,
    processed: usize,
    step: BlockOnStep<T>,
)
    requires
        helped(before, after, polled, processed, step),
    ensures
        queued(before) == (match step {
            BlockOnStep::Run(task) => queued(after).insert(task.header),
            _ => queued(after),
        }),
{
    if let BlockOnStep::Run(task) = step {
        lemma_given(before, after, Some(task));
    } else if before.injector_gave(after, None) {
        lemma_given(before, after, None);
    }
}

/// A thread that runs its own scheduler parks only when no task waits, neither
/// with the thread nor in the queue that handles fill.
pub proof fn law_current_thread_parks_only_without_work<T>(
    before: CurrentThread,
    after: CurrentThread,
    waiting: Seq<Task>,
    waiting_after: Seq<Task>,
    park: ParkStep,
)
    requires
        before.blocks(after, waiting, waiting_after, BlockOnStep::<T>::Park(park)),
    ensures
        waiting.len() == 0,
        before.shared.queue().len() == 0,
{
}

/// A thread that blocks on a future parks only when no queue holds a task.
pub proof fn law_blocked_thread_parks_only_without_work<T>(
    before: Shared,
    after: Shared,
    parker: BlockOnParker,
    parker_after: BlockOnParker,
    park: ParkStep,
)
    requires
        blocked(before, after, parker, parker_after, BlockOnStep::<T>::Park(park)),
    ensures
        before.queue().len() == 0,
        forall|i: int|
            0 <= i < before.locals().len() ==> (#[trigger] before.locals()[i]).len() == 0,
{
    let order = outside_order(before.stealers@.len());
    law_thief_finds_the_first_filled(before.locals(), order);
    assert(before.locals().len() == before.stealers@.len());
    assert forall|i: int| 0 <= i < before.locals().len() implies (
    #[trigger] before.locals()[i]).len() == 0 by {
        assert(order[i] == i);
    }
}

/// A worker becomes idle only when its own queue and those of all other workers
/// are empty.
pub proof fn law_worker_idles_only_without_work(
    before: Shared,
    after: Shared,
    index: int,
    phase: WorkerPhase,
    step: WorkerStep,
)
    requires
        0 <= index < before.stealers@.len(),
        searched(before, after, index, phase, step),
        phase is Idle,
    ensures
        forall|i: int|
            0 <= i < before.locals().len() ==> (#[trigger] before.locals()[i]).len() == 0,
{
    let count = before.stealers@.len();
    let order = worker_order(index, count);
    law_thief_finds_the_first_filled(before.locals(), order);
    law_worker_tries_every_other_once(index, count);
    assert(before.locals().len() == count);
    assert forall|i: int| 0 <= i < before.locals().len() implies (
    #[trigger] before.locals()[i]).len() == 0 by {
        if i != index {
            assert(order.contains(i));
            let k = choose|k: int| 0 <= k < order.len() && order[k] == i;
            assert(order[k] == i);
        }
    }
}

/// The parker of a blocked thread keeps one notification: it lets the thread
/// through once, and a thread that parks without one stays.
pub proof fn law_block_on_parker_keeps_one_notification(parker: BlockOnParker)
    ensures
        parker.unparks().0.parks().1 is Return,
        parker.unparks().0.unparks() == (parker.unparks().0, false),
        parker.parks().0.parks().1 is ParkThread,
        parker.parks().0.unparks().1,
{
}

/// What is current on a thread after a guard was dropped is what was current
/// before it was made.
pub proof fn law_context_is_restored(current: CurrentContext, handle: Handle)
    ensures
        ContextGuard::remembering(current).restored() == current,
        handle.enters(current).1.left(handle.enters(current).0) == current,
{
}

} // verus!

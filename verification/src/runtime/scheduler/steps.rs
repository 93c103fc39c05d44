//! What each turn of a scheduler does, said of the queues before and after it.

use crate::runtime::handle::{helped, puts, wakes, Handle, WorkerRef, Woken};
use crate::runtime::park::ParkStep;
use crate::runtime::scheduler::current_thread::{CurrentThread, LocalQueue, TurnStep};
use crate::runtime::scheduler::laws::{
    law_thief_finds_the_first_filled, law_worker_tries_every_other_once,
};
use crate::runtime::scheduler::multi_thread::{
    block_turn, first_filled, idled, known_threads, lemma_around, loot, outside_order, searched,
    stolen_from_outside, worker_order, BlockOnParker, BlockOnStep, CurrentContext, MultiThread,
    Shared, ThreadUnpark, WorkerPhase, WorkerStep,
};
use crate::runtime::scheduler::queue::{injector_contents, worker_contents};
use crate::task::raw::{Header, Schedule};
use crate::task::{Poll, Task};
use vstd::multiset::Multiset;
use vstd::prelude::*;

verus! {

/// The queues of a runtime are its injector and, one for each worker, those that can be
/// stolen from.
pub proof fn law_queues_of_a_runtime(shared: Shared)
    ensures
        shared.queue() == injector_contents(shared.injector),
        shared.locals().len() == shared.stealers@.len(),
        forall|i: int|
            0 <= i < shared.stealers@.len() ==> #[trigger] shared.locals()[i] == worker_contents(
                shared.stealers@[i],
            ),
{
}

/// Taking from the shared queue gives its oldest task and leaves the others in their
/// order. It gives none only if there is none, or if the queue asked for another
/// attempt, of which a record is kept; and it touches nothing else.
pub proof fn law_shared_queue_gives_its_oldest(before: Shared, after: Shared, task: Option<Task>)
    requires
        before.injector_gave(after, task),
    ensures
        task is Some ==> before.queue() == seq![task->0.header] + after.queue()
            && after.refusals@.len() == before.refusals@.len(),
        task is None ==> after.queue() == before.queue(),
        task is None && before.queue().len() > 0 ==> after.refusals@.len()
            == before.refusals@.len() + 1,
        before.queue().len() == 0 ==> task is None && after.refusals@.len()
            == before.refusals@.len(),
        after.locals() == before.locals(),
        after.id == before.id,
        after.unparkers@ == before.unparkers@,
        after.active == before.active,
        after.shutdown == before.shutdown,
{
    if task is Some {
        assert(before.queue() =~= seq![task->0.header] + after.queue());
    }
}

/// A worker tries the others from the next one on, around the end.
pub proof fn law_worker_begins_with_the_next(my_index: int, count: nat, k: int)
    requires
        0 <= my_index < count,
        0 <= k < count - 1,
    ensures
        worker_order(my_index, count)[k] == (my_index + 1 + k) % count as int,
{
    let n = count as int;
    lemma_around(my_index, 1, n);
    let start = (my_index + 1) % n;
    lemma_around(start, k, n);
    lemma_around(my_index, k + 1, n);
}

/// A thread that is no worker tries the workers in the order of their indices.
pub proof fn law_outsider_begins_with_the_first(count: nat, k: int)
    requires
        0 <= k < count,
    ensures
        outside_order(count).len() == count,
        outside_order(count)[k] == k,
{
}

/// A worker that searches exits if the runtime is shut down, and never waits. It runs the
/// front of its own queue if there is one, and else the front of that of another worker
/// if any has one. Only then does it try the shared queue, whatever its index: with
/// nothing it comes back only if the shared queue is empty, or has asked for another
/// attempt in this turn.
pub proof fn law_searching_worker_leaves_no_work(
    before: Shared,
    after: Shared,
    index: int,
    phase: WorkerPhase,
    step: WorkerStep,
)
    requires
        0 <= index < before.stealers@.len(),
        searched(before, after, index, phase, step),
    ensures
        step is Exit <==> before.shutdown,
        before.shutdown ==> after == before && phase is Searching,
        !(step is Wait),
        step is Run ==> phase is Searching && after.active == before.active,
        step is Again ==> phase is Idle,
        step is Again && before.active > 0 ==> after.active == before.active - 1,
        step is Again && before.active == 0 ==> after.active == usize::MAX,
        !before.shutdown && before.locals()[index].len() > 0 ==> step == WorkerStep::Run(
            Task { header: before.locals()[index][0] },
        ),
        !before.shutdown && (exists|i: int|
            0 <= i < before.stealers@.len() && (#[trigger] before.locals()[i]).len() > 0)
            ==> step is Run && after.queue() == before.queue(),
        !before.shutdown && before.queue().len() > 0 && (forall|i: int|
            0 <= i < before.stealers@.len() ==> (#[trigger] before.locals()[i]).len() == 0) ==> {
            ||| step == WorkerStep::Run(Task { header: before.queue()[0] }) && before.queue()
                == seq![before.queue()[0]] + after.queue() && after.refusals@.len()
                == before.refusals@.len()
            ||| step is Again && after.queue() == before.queue() && after.refusals@.len()
                == before.refusals@.len() + 1
        },
        (forall|i: int|
            0 <= i < before.stealers@.len() ==> (#[trigger] before.locals()[i]).len() == 0)
            ==> after.locals() == before.locals(),
        step is Again ==> after.locals() == before.locals() && after.queue() == before.queue(),
        step is Again && after.refusals@.len() == before.refusals@.len() ==> before.queue().len()
            == 0,
        after.refusals@.len() == before.refusals@.len() + (if step is Again && before.queue().len()
            > 0 {
            1nat
        } else {
            0nat
        }),
        after.id == before.id,
        after.unparkers@ == before.unparkers@,
        after.shutdown == before.shutdown,
{
    let count = before.stealers@.len();
    let order = worker_order(index, count);
    law_thief_finds_the_first_filled(before.locals(), order);
    law_worker_tries_every_other_once(index, count);
    assert forall|i: int|
        0 <= i < count && i != index && (#[trigger] before.locals()[i]).len() > 0 implies loot(
        before.locals(),
        order,
    ) is Some by {
        assert(order.contains(i));
        let k = choose|k: int| 0 <= k < order.len() && order[k] == i;
        assert(order[k] == i);
    }
    if loot(before.locals(), order) is Some {
        let k = choose|k: int|
            {
                &&& 0 <= k < order.len()
                &&& #[trigger] order[k] == first_filled(before.locals(), order)->0
                &&& before.locals()[order[k]].len() > 0
                &&& forall|j: int| 0 <= j < k ==> before.locals()[#[trigger] order[j]].len() == 0
            };
        assert(order.contains(order[k]));
        assert(before.locals()[order[k]].len() > 0);
    }
    if step is Run && before.locals()[index].len() == 0 && loot(before.locals(), order) is None {
        assert(before.queue() =~= seq![before.queue()[0]] + after.queue());
    }
}

/// A worker that runs a task of another worker takes the front of the first queue that
/// has one, from the next worker on, and leaves all else in the queues as it was.
pub proof fn law_searching_worker_robs_the_next(
    before: Shared,
    after: Shared,
    index: int,
    phase: WorkerPhase,
    task: Task,
    ahead: int,
)
    requires
        0 <= index < before.stealers@.len(),
        searched(before, after, index, phase, WorkerStep::Run(task)),
        0 <= ahead < before.stealers@.len(),
        before.locals()[(index + ahead) % before.stealers@.len() as int].len() > 0,
        forall|k: int|
            0 <= k < ahead ==> before.locals()[#[trigger] ((index + k)
                % before.stealers@.len() as int)].len() == 0,
    ensures
        ({
            let victim = (index + ahead) % before.stealers@.len() as int;
            &&& before.locals()[victim] == seq![task.header] + after.locals()[victim]
            &&& after.locals().len() == before.locals().len()
            &&& forall|i: int|
                0 <= i < before.stealers@.len() && i != victim ==> #[trigger] after.locals()[i]
                    == before.locals()[i]
            &&& after.queue() == before.queue()
        }),
{
    let count = before.stealers@.len();
    let n = count as int;
    let order = worker_order(index, count);
    let victim = (index + ahead) % n;
    lemma_around(index, ahead, n);
    lemma_around(index, 0, n);
    if ahead == 0 {
        assert(victim == index);
        assert(before.locals()[victim] =~= seq![task.header] + after.locals()[victim]);
    } else {
        assert(before.locals()[(index + 0) % n].len() == 0);
        assert(before.locals()[index].len() == 0);
        law_thief_finds_the_first_filled(before.locals(), order);
        law_worker_begins_with_the_next(index, count, ahead - 1);
        assert(order[ahead - 1] == victim);
        assert(before.locals()[order[ahead - 1]].len() > 0);
        let at = first_filled(before.locals(), order)->0;
        let k = choose|k: int|
            {
                &&& 0 <= k < order.len()
                &&& #[trigger] order[k] == at
                &&& before.locals()[order[k]].len() > 0
                &&& forall|j: int| 0 <= j < k ==> before.locals()[#[trigger] order[j]].len() == 0
            };
        law_worker_begins_with_the_next(index, count, k);
        assert(order[k] == (index + (k + 1)) % n);
        assert(k == ahead - 1);
        assert(before.locals()[victim] =~= seq![task.header] + after.locals()[victim]);
    }
}

/// An idle worker runs the front of its own queue if there is one, and else tries the
/// shared queue, whatever its index: with nothing it comes back only if the shared queue is
/// empty, or has asked for another attempt in this turn. It waits only if both are
/// empty and the runtime is not shut down; and it searches again if it has a task to run,
/// or at shutdown.
pub proof fn law_idle_worker_leaves_no_work(
    before: Shared,
    after: Shared,
    index: int,
    phase: WorkerPhase,
    step: WorkerStep,
)
    requires
        0 <= index < before.stealers@.len(),
        idled(before, after, index, phase, step),
    ensures
        !(step is Exit),
        before.locals()[index].len() > 0 ==> {
            &&& step == WorkerStep::Run(Task { header: before.locals()[index][0] })
            &&& before.locals()[index] == seq![before.locals()[index][0]] + after.locals()[index]
            &&& after.queue() == before.queue()
        },
        before.locals()[index].len() == 0 ==> after.locals()[index] == before.locals()[index],
        before.locals()[index].len() == 0 && before.queue().len() > 0 ==> {
            ||| step == WorkerStep::Run(Task { header: before.queue()[0] }) && before.queue()
                == seq![before.queue()[0]] + after.queue() && after.refusals@.len()
                == before.refusals@.len()
            ||| step is Again && after.queue() == before.queue() && after.refusals@.len()
                == before.refusals@.len() + 1
        },
        before.locals()[index].len() == 0 && before.queue().len() == 0 ==> {
            &&& after.queue() == before.queue()
            &&& after.refusals@.len() == before.refusals@.len()
            &&& before.shutdown ==> step is Again
            &&& !before.shutdown ==> step is Wait
        },
        after.locals().len() == before.locals().len(),
        forall|i: int|
            0 <= i < before.stealers@.len() && i != index ==> #[trigger] after.locals()[i]
                == before.locals()[i],
        phase is Searching <==> step is Run || before.shutdown,
        phase is Idle ==> after.active == before.active,
        phase is Searching && before.active < usize::MAX ==> after.active == before.active + 1,
        phase is Searching && before.active == usize::MAX ==> after.active == 0,
        after.id == before.id,
        after.unparkers@ == before.unparkers@,
        after.shutdown == before.shutdown,
{
    if before.locals()[index].len() > 0 {
        assert(before.locals()[index] =~= seq![before.locals()[index][0]]
            + after.locals()[index]);
    } else if step is Run {
        assert(before.queue() =~= seq![before.queue()[0]] + after.queue());
    }
}

/// A thread that is no worker steals the front of the first worker queue that has one,
/// and leaves all else as it was; without one it tries the shared queue.
pub proof fn law_outsider_robs_the_first(
    before: Shared,
    after: Shared,
    task: Option<Task>,
    victim: int,
)
    requires
        stolen_from_outside(before, after, task),
        0 <= victim <= before.stealers@.len(),
        victim < before.stealers@.len() ==> before.locals()[victim].len() > 0,
        forall|i: int| 0 <= i < victim ==> (#[trigger] before.locals()[i]).len() == 0,
    ensures
        victim < before.stealers@.len() ==> {
            &&& task is Some
            &&& before.locals()[victim] == seq![task->0.header] + after.locals()[victim]
            &&& after.locals().len() == before.locals().len()
            &&& forall|i: int|
                0 <= i < before.stealers@.len() && i != victim ==> #[trigger] after.locals()[i]
                    == before.locals()[i]
            &&& after.queue() == before.queue()
            &&& after.refusals@.len() == before.refusals@.len()
        },
        victim == before.stealers@.len() ==> {
            &&& after.locals() == before.locals()
            &&& task is Some ==> before.queue() == seq![task->0.header] + after.queue()
                && after.refusals@.len() == before.refusals@.len()
            &&& task is None ==> after.queue() == before.queue() && after.refusals@.len()
                == before.refusals@.len() + (if before.queue().len() > 0 {
                1nat
            } else {
                0nat
            })
        },
        after.id == before.id,
        after.unparkers@ == before.unparkers@,
        after.active == before.active,
        after.shutdown == before.shutdown,
{
    let count = before.stealers@.len();
    let order = outside_order(count);
    law_thief_finds_the_first_filled(before.locals(), order);
    assert forall|k: int| 0 <= k < count implies #[trigger] order[k] == k by {}
    if victim < count {
        assert(order[victim] == victim);
        let k = choose|k: int|
            {
                &&& 0 <= k < order.len()
                &&& #[trigger] order[k] == first_filled(before.locals(), order)->0
                &&& before.locals()[order[k]].len() > 0
                &&& forall|j: int| 0 <= j < k ==> before.locals()[#[trigger] order[j]].len() == 0
            };
        assert(order[k] == k);
        if k > victim {
            assert(before.locals()[order[victim]].len() == 0);
        }
        assert(before.locals()[k].len() > 0);
        assert(k == victim);
        assert(before.locals()[victim] =~= seq![task->0.header] + after.locals()[victim]);
    } else {
        assert forall|k: int| 0 <= k < order.len() implies before.locals()[
        #[trigger] order[k]].len() == 0 by {
            assert(before.locals()[k].len() == 0);
        }
        if task is Some {
            assert(before.queue() =~= seq![task->0.header] + after.queue());
        }
    }
}

/// A thread that blocks on a future returns exactly the output that the future has just
/// given, whatever the queues hold, and touches nothing. While the future is pending it
/// does not return: it runs a task that it stole, if it stole one; without one it parks if
/// the shared queue is empty, and yields if it is not, which then has asked for another
/// attempt.
pub proof fn law_blocked_thread_returns_the_output<T>(
    before: Shared,
    after: Shared,
    parker: BlockOnParker,
    parker_after: BlockOnParker,
    polled: Poll<T>,
    step: BlockOnStep<T>,
)
    requires
        block_turn(before, after, parker, parker_after, polled, step),
    ensures
        polled matches Poll::Ready(output) ==> step == BlockOnStep::Return(output) && after
            == before && parker_after == parker,
        polled is Pending ==> !(step is Return),
        step matches BlockOnStep::Run(task) ==> stolen_from_outside(before, after, Some(task))
            && parker_after == parker,
        polled is Pending && !(step is Run) ==> {
            &&& stolen_from_outside(before, after, None)
            &&& forall|i: int|
                0 <= i < before.stealers@.len() ==> (#[trigger] before.locals()[i]).len() == 0
            &&& after.queue() == before.queue()
            &&& before.queue().len() == 0 ==> step is Park
            &&& before.queue().len() > 0 ==> step is Yield && after.refusals@.len()
                == before.refusals@.len() + 1 && parker_after == parker
        },
        step matches BlockOnStep::Park(park) ==> {
            &&& park == (if parker.unparked {
                ParkStep::Return
            } else {
                ParkStep::ParkThread
            })
            &&& parker_after.id == parker.id
            &&& !parker_after.unparked
        },
{
    let order = outside_order(before.stealers@.len());
    law_thief_finds_the_first_filled(before.locals(), order);
    assert forall|k: int| 0 <= k < order.len() implies #[trigger] order[k] == k by {}
    if polled is Pending && !(step is Run) {
        assert forall|i: int| 0 <= i < before.stealers@.len() implies (
        #[trigger] before.locals()[i]).len() == 0 by {
            assert(order[i] == i);
        }
    }
}

/// Whatever the queues hold and however many tasks were run, a thread that blocks on a
/// future with a handle returns exactly the output that the future has just given, and
/// leaves the shared state as it was.
pub proof fn law_helping_thread_returns_the_output<T>(
    before: Shared,
    after: Shared,
    output: T,
    processed: usize,
    step: BlockOnStep<T>,
)
    requires
        helped(before, after, Some(Poll::Ready(output)), processed, step),
    ensures
        step == BlockOnStep::Return(output),
        after == before,
{
}

/// While a future gives no output, a thread that blocks on it with a handle runs the
/// oldest task of the shared queue, up to ten of them between two polls; it yields after
/// ten, without one, or if the queue has asked for another attempt. It neither returns
/// nor parks.
pub proof fn law_helping_thread_runs_the_oldest<T>(
    before: Shared,
    after: Shared,
    polled: Option<Poll<T>>,
    processed: usize,
    step: BlockOnStep<T>,
)
    requires
        helped(before, after, polled, processed, step),
        !(polled matches Some(Poll::Ready(_))),
    ensures
        step is Run || step is Yield,
        processed >= 10 || before.queue().len() == 0 ==> step is Yield,
        step matches BlockOnStep::Run(task) ==> before.queue() == seq![task.header]
            + after.queue() && after.refusals@.len() == before.refusals@.len(),
        step is Yield ==> after.queue() == before.queue(),
        step is Yield && processed < 10 && before.queue().len() > 0 ==> after.refusals@.len()
            == before.refusals@.len() + 1,
        processed >= 10 ==> after == before,
        after.locals() == before.locals(),
        after.id == before.id,
        after.unparkers@ == before.unparkers@,
        after.active == before.active,
        after.shutdown == before.shutdown,
{
    if let BlockOnStep::Run(task) = step {
        assert(before.queue() =~= seq![task.header] + after.queue());
    }
}

/// The keys of some tasks.
pub open spec fn keys_of(tasks: Seq<Task>) -> Seq<u64> {
    Seq::new(tasks.len(), |i: int| tasks[i].header)
}

/// With tasks waiting on the thread, however many, a current-thread scheduler gives the
/// oldest of them, and leaves the others in their order and the shared queue alone.
/// Without one it gives what the shared queue gives.
pub proof fn law_current_thread_gives_the_oldest(
    before: CurrentThread,
    after: CurrentThread,
    waiting: Seq<Task>,
    waiting_after: Seq<Task>,
    task: Option<Task>,
)
    requires
        before.gives_next(after, waiting, waiting_after, task),
    ensures
        waiting.len() > 0 ==> {
            &&& task is Some
            &&& waiting == seq![task->0] + waiting_after
            &&& after.shared.queue() == before.shared.queue()
        },
        waiting.len() == 0 ==> {
            &&& waiting_after.len() == 0
            &&& task is Some ==> before.shared.queue() == seq![task->0.header]
                + after.shared.queue()
            &&& task is None ==> after.shared.queue() == before.shared.queue()
            &&& task is None && before.shared.queue().len() > 0 ==> after.shared.refusals@.len()
                == before.shared.refusals@.len() + 1
        },
        after.handle == before.handle,
        after.parker == before.parker,
        after.shutdown == before.shutdown,
        after.shared.id == before.shared.id,
        after.shared.shutdown == before.shared.shutdown,
{
    if waiting.len() > 0 {
        assert(waiting =~= seq![task->0] + waiting_after);
    } else if task is Some {
        assert(before.shared.queue() =~= seq![task->0.header] + after.shared.queue());
    }
}

/// A current-thread scheduler loses no task: what waited on the thread and in the shared
/// queue is what waits there afterwards, and the task that it gives to be run.
pub proof fn law_current_thread_loses_no_task(
    before: CurrentThread,
    after: CurrentThread,
    waiting: Seq<Task>,
    waiting_after: Seq<Task>,
    task: Option<Task>,
)
    requires
        before.gives_next(after, waiting, waiting_after, task),
    ensures
        keys_of(waiting).to_multiset().add(before.shared.queue().to_multiset()) == keys_of(
            waiting_after,
        ).to_multiset().add(after.shared.queue().to_multiset()).add(
            match task {
                Some(task) => Multiset::singleton(task.header),
                None => Multiset::empty(),
            },
        ),
{
    let kept = keys_of(waiting).to_multiset().add(before.shared.queue().to_multiset());
    let left = keys_of(waiting_after).to_multiset().add(after.shared.queue().to_multiset());
    law_current_thread_gives_the_oldest(before, after, waiting, waiting_after, task);
    if let Some(given) = task {
        if waiting.len() > 0 {
            assert(keys_of(waiting) =~= seq![given.header] + keys_of(waiting_after));
            lemma_first_counted(given.header, keys_of(waiting_after));
        } else {
            assert(keys_of(waiting) =~= keys_of(waiting_after));
            lemma_first_counted(given.header, after.shared.queue());
        }
        assert(kept =~= left.add(Multiset::singleton(given.header)));
    } else {
        assert(keys_of(waiting) =~= keys_of(waiting_after));
        assert(kept =~= left.add(Multiset::empty()));
    }
}

/// A key in front of others is counted with them.
proof fn lemma_first_counted(key: u64, rest: Seq<u64>)
    ensures
        (seq![key] + rest).to_multiset() == rest.to_multiset().add(Multiset::singleton(key)),
{
    let all = seq![key] + rest;
    vstd::seq_lib::to_multiset_remove(all, 0);
    assert(all.remove(0) =~= rest);
    all.to_multiset_ensures();
    assert(all.contains(all[0]));
    assert(all.to_multiset() =~= rest.to_multiset().add(Multiset::singleton(key)));
}

/// A thread that blocks on a future with its own scheduler returns exactly the output
/// that the future has just given, whatever waits, and touches nothing. Else it runs the
/// task that the scheduler gives; without one it parks if none waits, and goes on if one
/// does; and it does not return.
pub proof fn law_current_thread_returns_the_output<T>(
    before: CurrentThread,
    after: CurrentThread,
    waiting: Seq<Task>,
    waiting_after: Seq<Task>,
    polled: Option<Poll<T>>,
    step: BlockOnStep<T>,
)
    requires
        before.block_turn(after, waiting, waiting_after, polled, step),
    ensures
        polled matches Some(Poll::Ready(output)) ==> step == BlockOnStep::Return(output) && after
            == before && waiting_after == waiting,
        !(polled matches Some(Poll::Ready(_))) ==> !(step is Return),
        step matches BlockOnStep::Run(task) ==> before.gives_next(
            after,
            waiting,
            waiting_after,
            Some(task),
        ),
        !(polled matches Some(Poll::Ready(_))) && waiting.len() > 0 ==> step == BlockOnStep::<
            T,
        >::Run(waiting[0]) && waiting == seq![waiting[0]] + waiting_after,
        !(polled matches Some(Poll::Ready(_))) && waiting.len() == 0
            && before.shared.queue().len() > 0 ==> {
            ||| step == BlockOnStep::<T>::Run(Task { header: before.shared.queue()[0] })
                && before.shared.queue() == seq![before.shared.queue()[0]] + after.shared.queue()
            ||| step is Yield && after.shared.queue() == before.shared.queue()
                && after.shared.refusals@.len() == before.shared.refusals@.len() + 1
        },
        !(polled matches Some(Poll::Ready(_))) && waiting.len() == 0
            && before.shared.queue().len() == 0 ==> {
            &&& step is Park
            &&& after.shared.queue().len() == 0
        },
        step matches BlockOnStep::Park(park) ==> {
            &&& after.parker.id == before.parker.id
            &&& before.parker.state is Empty ==> park == ParkStep::Wait(None)
                && after.parker.state is Parked
            &&& before.parker.state is Parked ==> park is Retry && after.parker.state is Parked
            &&& before.parker.state is Notified ==> park is Return && after.parker.state is Empty
        },
        !(step is Park) ==> after.parker == before.parker,
        after.handle == before.handle,
        after.shutdown == before.shutdown,
        after.shared.id == before.shared.id,
        after.shared.shutdown == before.shared.shutdown,
        !(step is Return) ==> waiting_after.len() == (if waiting.len() > 0 {
            waiting.len() - 1
        } else {
            0
        }),
{
    if let BlockOnStep::Run(task) = step {
        law_current_thread_gives_the_oldest(before, after, waiting, waiting_after, Some(task));
    }
}

/// A turn of a current-thread scheduler runs the task that the scheduler gives; without
/// one it parks, for as long as it was told, if none waits and the scheduler is not shut
/// down; and else it is over.
pub proof fn law_current_thread_turns(
    before: CurrentThread,
    after: CurrentThread,
    waiting: Seq<Task>,
    waiting_after: Seq<Task>,
    duration: Option<u128>,
    step: TurnStep,
)
    requires
        before.turns(after, waiting, waiting_after, duration, step),
    ensures
        step matches TurnStep::Run(task) ==> before.gives_next(
            after,
            waiting,
            waiting_after,
            Some(task),
        ),
        waiting.len() > 0 ==> step == TurnStep::Run(waiting[0]) && waiting == seq![waiting[0]]
            + waiting_after && after.shared.queue() == before.shared.queue(),
        waiting.len() == 0 ==> waiting_after.len() == 0,
        waiting.len() == 0 && before.shared.queue().len() > 0 ==> {
            ||| step == TurnStep::Run(Task { header: before.shared.queue()[0] })
                && before.shared.queue() == seq![before.shared.queue()[0]] + after.shared.queue()
            ||| step is Done && after.shared.queue() == before.shared.queue()
                && after.shared.refusals@.len() == before.shared.refusals@.len() + 1
        },
        waiting.len() == 0 && before.shared.queue().len() == 0 ==> {
            &&& after.shared.queue().len() == 0
            &&& before.shutdown ==> step is Done
            &&& !before.shutdown ==> step is Park
        },
        step matches TurnStep::Park(park) ==> {
            &&& after.parker.id == before.parker.id
            &&& before.parker.state is Empty ==> park == ParkStep::Wait(duration)
                && after.parker.state is Parked
            &&& before.parker.state is Parked ==> park is Retry && after.parker.state is Parked
            &&& before.parker.state is Notified ==> park is Return && after.parker.state is Empty
        },
        !(step is Park) ==> after.parker == before.parker,
        after.handle == before.handle,
        after.shutdown == before.shutdown,
        after.shared.id == before.shared.id,
        after.shared.shutdown == before.shared.shutdown,
{
    if let TurnStep::Run(task) = step {
        law_current_thread_gives_the_oldest(before, after, waiting, waiting_after, Some(task));
    }
}

/// A task that is brought to the runtime whose state is given stands at the end of the
/// shared queue, and somebody is told; one that has to go elsewhere is handed back with
/// where it goes, and leaves the queue alone. Nothing is dropped.
pub proof fn law_scheduled_task_is_queued(
    task: Task,
    to: Schedule,
    before: Shared,
    after: Shared,
    r: Woken,
)
    requires
        puts(task, to, before, after, r),
    ensures
        to == Schedule::Push(before.id) ==> {
            &&& after.queue() == before.queue() + seq![task.header]
            &&& r == Woken::Queued(before.notice())
        },
        to != Schedule::Push(before.id) ==> after.queue() == before.queue(),
        to matches Schedule::Push(id) ==> id == before.id || r == Woken::Elsewhere(id),
        to matches Schedule::Local(thread) ==> r == Woken::Local(thread),
        to is Run ==> r == Woken::Run(task),
        !(r is Nothing),
        after.locals() == before.locals(),
        after.id == before.id,
        after.unparkers@ == before.unparkers@,
        after.active == before.active,
        after.shutdown == before.shutdown,
{
    if to == Schedule::Push(before.id) {
        assert(after.queue() =~= before.queue() + seq![task.header]);
    }
}

/// A wake-up that takes a task from idle to scheduled puts its key at the end of the
/// shared queue, if the runtime that it goes to is the one whose state is given; and
/// nothing comes of a wake-up only if the task was not idle, or was aborted.
pub proof fn law_woken_task_is_queued<F, T, W>(
    key: u64,
    header: Header<F, T, W>,
    current: Option<u64>,
    before: Shared,
    after: Shared,
    r: Woken,
)
    requires
        wakes(key, header, current, before, after, r),
    ensures
        ({
            let bits = header.state.bits as int;
            let idle = bits % 4 == 0 && bits / 4 % 2 == 0;
            let here = header.scheduler is Some && header.scheduler->0.thread is None && (
            header.scheduler->0.shared == Some(before.id) || (header.scheduler->0.shared is None
                && current == Some(before.id)));
            &&& r is Nothing <==> !idle
            &&& r is Queued <==> idle && here
            &&& idle && here ==> after.queue() == before.queue() + seq![key] && r == Woken::Queued(
                before.notice(),
            )
            &&& !(idle && here) ==> after.queue() == before.queue()
            &&& after.locals() == before.locals()
            &&& after.id == before.id
            &&& after.unparkers@ == before.unparkers@
            &&& after.active == before.active
            &&& after.shutdown == before.shutdown
        }),
{
    if r is Queued {
        assert(after.queue() =~= before.queue() + seq![key]);
    }
}

/// Whoever adds a task unparks the thread of the first worker, if that is known;
/// notifies a worker that waits, if fewer are awake than there are; and unparks the parker
/// with the number of the runtime exactly if it has no workers.
pub proof fn law_whom_a_notice_tells(shared: Shared)
    ensures
        shared.unparkers@.len() > 0 ==> shared.notice().thread == shared.unparkers@[0].thread,
        shared.unparkers@.len() == 0 ==> shared.notice().thread is None,
        shared.notice().worker <==> shared.active < shared.stealers@.len(),
        shared.stealers@.len() == 0 ==> shared.notice().parker == Some(shared.id),
        shared.stealers@.len() > 0 ==> shared.notice().parker is None,
{
}

/// Shutting down unparks every thread that is known, in order, and no other: the
/// threads of some workers and then of others are those of all of them.
pub proof fn law_known_threads_of_all(some: Seq<ThreadUnpark>, others: Seq<ThreadUnpark>)
    ensures
        known_threads(some + others) == known_threads(some) + known_threads(others),
        some.len() == 0 ==> known_threads(some) == Seq::<u64>::empty(),
        some.len() == 1 && some[0].thread is None ==> known_threads(some) == Seq::<u64>::empty(),
        some.len() == 1 && some[0].thread is Some ==> known_threads(some) == seq![
            some[0].thread->0,
        ],
    decreases others.len(),
{
    if others.len() == 0 {
        assert(some + others =~= some);
        assert(known_threads(some) + known_threads(others) =~= known_threads(some));
    } else {
        assert((some + others).drop_last() =~= some + others.drop_last());
        law_known_threads_of_all(some, others.drop_last());
        assert(known_threads(some + others) =~= known_threads(some) + known_threads(others));
    }
    if some.len() == 1 {
        assert(some.drop_last() =~= Seq::<ThreadUnpark>::empty());
        assert(known_threads(some.drop_last()) =~= Seq::<u64>::empty());
    }
}

/// A parker of a blocked thread with a notification returns and takes it, one without
/// parks the thread; unparking leaves one, and asks for the thread exactly if there was
/// none.
pub proof fn law_block_on_parker_steps(parker: BlockOnParker)
    ensures
        parker.unparked ==> parker.parks().1 is Return,
        !parker.unparked ==> parker.parks().1 is ParkThread,
        parker.parks().0.id == parker.id,
        !parker.parks().0.unparked,
        parker.unparks().1 <==> !parker.unparked,
        parker.unparks().0.id == parker.id,
        parker.unparks().0.unparked,
{
}

/// Entering a handle makes its runtime current, leaves the worker as it was, and gives a
/// guard with the handle. A handle of a current-thread scheduler sees the shutdown of that,
/// and any other sees that of the shared state.
pub proof fn law_handle_is_entered(
    handle: Handle,
    current: CurrentContext,
    shared: Shared,
    local_shutdown: bool,
)
    ensures
        handle.enters(current).0.context == Some(handle.shared),
        handle.enters(current).0.worker == current.worker,
        handle.enters(current).1.handle == handle,
        handle.enters(current).1.left(handle.enters(current).0) == current,
        handle.local ==> handle.sees_shutdown(shared, local_shutdown) == local_shutdown,
        !handle.local ==> handle.sees_shutdown(shared, local_shutdown) == shared.shutdown,
{
}

/// What two states have in common that are said to differ in one thing alone.
pub proof fn law_what_stays_the_same(
    a: Shared,
    b: Shared,
    m: MultiThread,
    n: MultiThread,
    c: CurrentThread,
    d: CurrentThread,
    p: LocalQueue,
    q: LocalQueue,
)
    ensures
        a.same_but_queues(b) ==> a.id == b.id && a.unparkers@ == b.unparkers@ && a.active
            == b.active && a.shutdown == b.shutdown,
        a.alike(b) ==> a.same_but_queues(b) && a.queue() == b.queue() && a.locals() == b.locals()
            && a.refusals@ == b.refusals@,
        m.same_but_shared(n) ==> m.handle == n.handle && m.workers@ == n.workers@,
        c.same_but_parker(d) ==> c.handle == d.handle && c.shared == d.shared && c.parker.id
            == d.parker.id && c.shutdown == d.shutdown,
        c.same_but_queue(d) ==> c.handle == d.handle && c.parker == d.parker && c.shutdown
            == d.shutdown && c.shared.same_but_queues(d.shared) && c.shared.locals()
            == d.shared.locals(),
        p.same_but_tasks(q) ==> p.thread == q.thread && p.parker == q.parker,
{
}

/// A handle has a worker on a thread exactly if a runtime is current there, and it is one
/// of its own exactly if that is the runtime of the handle; and the handle that is
/// current is one of the runtime that was entered last.
pub proof fn law_handle_on_a_thread(handle: Handle, current: CurrentContext)
    ensures
        handle.worker_on(current) is None <==> current.context is None,
        handle.worker_on(current) == Some(WorkerRef::MultiThread) <==> current.context == Some(
            handle.shared,
        ),
        handle.worker_on(handle.enters(current).0) == Some(WorkerRef::MultiThread),
        Handle::current_on(current) is None <==> current.context is None,
        Handle::current_on(current) is Some ==> current.context == Some(
            Handle::current_on(current)->0.shared,
        ) && !Handle::current_on(current)->0.local,
        Handle::current_on(handle.enters(current).0) == Some(
            Handle { shared: handle.shared, local: false },
        ),
{
}

} // verus!

//! The queues that tasks wait in: one that all share, and one for each worker.
//!
//! They are the queues of `crossbeam::deque`, which hold the keys of tasks.
//! What is said of them holds for an owner who lets nobody else at the queue
//! while a call runs, and who has given no stealer away.

use crossbeam::deque::{Injector, Worker};
use vstd::prelude::*;

verus! {

/// The injector type of `crossbeam::deque`: the queue that all share.
#[verifier::external_type_specification]
#[verifier::external_body]
#[verifier::reject_recursive_types(T)]
pub struct ExInjector<T>(crossbeam::deque::Injector<T>);

/// The worker type of `crossbeam::deque`: the queue of one worker.
#[verifier::external_type_specification]
#[verifier::external_body]
#[verifier::reject_recursive_types(T)]
pub struct ExWorker<T>(crossbeam::deque::Worker<T>);

/// What an injector holds, the oldest first.
pub uninterp spec fn injector_contents(queue: Injector<u64>) -> Seq<u64>;

/// What a worker queue holds, the oldest first.
pub uninterp spec fn worker_contents(queue: Worker<u64>) -> Seq<u64>;

/// Whether a worker queue gives its oldest task first to its own worker, too.
pub uninterp spec fn worker_is_fifo(queue: Worker<u64>) -> bool;

/// What came of an attempt to steal a task.
#[derive(Debug, Clone, Copy, PartialEq, Eq, Structural)]
pub enum Steal {
    /// The queue was empty.
    Empty,
    /// The task with this key was stolen.
    Success(u64),
    /// The attempt has to be made again.
    Retry,
}

/// That an injector has asked for another attempt. Nothing but an attempt makes one.
pub struct Refusal {
    _answer: (),
}

/// What an injector answered when a task was to be stolen from it.
pub enum Attempt {
    /// The queue was empty.
    Empty,
    /// The task with this key was stolen.
    Success(u64),
    /// The attempt has to be made again.
    Retry(Refusal),
}

/// `Injector::new` makes an empty queue.
#[verifier::external_body]
pub(crate) fn injector_new() -> (r: Injector<u64>)
    ensures
        injector_contents(r) == Seq::<u64>::empty(),
{
    Injector::new()
}

/// `Injector::push` puts a task behind all others.
#[verifier::external_body]
pub(crate) fn injector_push(queue: &mut Injector<u64>, task: u64)
    ensures
        injector_contents(*final(queue)) == injector_contents(*old(queue)).push(task),
{
    queue.push(task);
}

/// `Injector::steal` takes the oldest task, or finds the queue empty. It may
/// also ask for another attempt, even if nobody else is at the queue, and then
/// takes nothing: its exchange of the head index is allowed to fail for no
/// reason.
#[verifier::external_body]
pub(crate) fn injector_steal(queue: &mut Injector<u64>) -> (stolen: Attempt)
    ensures
        stolen is Empty <==> injector_contents(*old(queue)).len() == 0,
        stolen is Success ==> stolen->Success_0 == injector_contents(*old(queue))[0],
        stolen is Success ==> injector_contents(*final(queue)) == injector_contents(
            *old(queue),
        ).drop_first(),
        !(stolen is Success) ==> injector_contents(*final(queue)) == injector_contents(
            *old(queue),
        ),
{
    match queue.steal() {
        crossbeam::deque::Steal::Empty => Attempt::Empty,
        crossbeam::deque::Steal::Success(task) => Attempt::Success(task),
        crossbeam::deque::Steal::Retry => Attempt::Retry(Refusal { _answer: () }),
    }
}

/// `Injector::is_empty` tells whether the queue holds nothing.
#[verifier::external_body]
pub(crate) fn injector_is_empty(queue: &Injector<u64>) -> (r: bool)
    ensures
        r == (injector_contents(*queue).len() == 0),
{
    queue.is_empty()
}

/// `Worker::new_fifo` makes an empty queue that gives its oldest task first.
#[verifier::external_body]
pub(crate) fn worker_new_fifo() -> (r: Worker<u64>)
    ensures
        worker_is_fifo(r),
        worker_contents(r) == Seq::<u64>::empty(),
{
    Worker::new_fifo()
}

/// `Worker::pop` takes the oldest task of a first-in first-out queue, or nothing
/// if the queue is empty.
#[verifier::external_body]
pub(crate) fn worker_pop(queue: &mut Worker<u64>) -> (task: Option<u64>)
    requires
        worker_is_fifo(*old(queue)),
    ensures
        worker_is_fifo(*final(queue)),
        task is Some <==> worker_contents(*old(queue)).len() > 0,
        task is Some ==> task->0 == worker_contents(*old(queue))[0],
        task is Some ==> worker_contents(*final(queue)) == worker_contents(
            *old(queue),
        ).drop_first(),
        task is None ==> worker_contents(*final(queue)) == worker_contents(*old(queue)),
{
    queue.pop()
}

/// `Stealer::steal`, for a stealer that `Worker::stealer` makes of the queue,
/// takes the oldest task, or finds the queue empty. While nobody else is at the
/// queue it does not ask for another attempt: neither the buffer nor the front
/// index changes between its reads and its exchange.
#[verifier::external_body]
pub(crate) fn worker_steal(queue: &mut Worker<u64>) -> (stolen: Steal)
    ensures
        worker_is_fifo(*final(queue)) == worker_is_fifo(*old(queue)),
        !(stolen is Retry),
        stolen is Success <==> worker_contents(*old(queue)).len() > 0,
        stolen is Success ==> stolen->Success_0 == worker_contents(*old(queue))[0],
        stolen is Success ==> worker_contents(*final(queue)) == worker_contents(
            *old(queue),
        ).drop_first(),
        stolen is Empty ==> worker_contents(*final(queue)) == worker_contents(*old(queue)),
{
    match queue.stealer().steal() {
        crossbeam::deque::Steal::Empty => Steal::Empty,
        crossbeam::deque::Steal::Success(task) => Steal::Success(task),
        crossbeam::deque::Steal::Retry => Steal::Retry,
    }
}

} // verus!

//! What holds of a task through any sequence of events.

use crate::task::raw::{
    fresh_header, given_back, last_waker, schedule_of, Header, Poll, Schedule, SchedulerData,
};
use crate::task::state::{
    aborted_bit, flags_of, join_interest_bit, lemma_aborted_word, lemma_counted_word,
    lemma_join_word, lemma_panicked_word, lemma_retain_release, lemma_state_word,
    lemma_unjoined_word, panicked_bit, refcount_of, released, retained, state_of, TaskState,
};
use crate::task::waker::{after_wake, wakeable, woken};
use crate::task::{join_result, JoinError};
use vstd::prelude::*;

verus! {

/// Something that happens to a task.
pub enum TaskEvent<F, T, W> {
    /// One of its wakers is cloned.
    CloneWaker,
    /// One of its wakers is woken.
    Wake,
    /// One of its wakers is dropped.
    DropWaker,
    /// It is aborted.
    Abort,
    /// A join handle leaves its waker.
    Join(W),
    /// A join handle reads the output.
    Read,
    /// Its join handle is dropped.
    Detach,
    /// It is run: its future is taken out for a poll, if it may be polled.
    StartPoll,
    /// A poll of its future ends, if there is one.
    FinishPoll(F, Poll<T>),
    /// A poll of its future panics, if there is one.
    Panic,
}

/// The header of a task after an event; `None` if the event gave back the last
/// reference of a completed task, which takes the task with it.
pub open spec fn after<F, T, W>(header: Header<F, T, W>, event: TaskEvent<F, T, W>) -> Option<
    Header<F, T, W>,
> {
    match event {
        TaskEvent::CloneWaker => Some(header.with_bits(retained(header.state.bits))),
        TaskEvent::Wake => Some(after_wake(header)),
        TaskEvent::DropWaker => if last_waker(header.state.bits) {
            None
        } else {
            Some(header.with_bits(released(header.state.bits)))
        },
        TaskEvent::Abort => Some(header.after_abort()),
        TaskEvent::Join(waker) => Some(header.after_join(waker)),
        TaskEvent::Read => Some(header.after_read()),
        TaskEvent::Detach => if header.detach_frees() {
            None
        } else {
            Some(header.after_detach())
        },
        TaskEvent::StartPoll => if header.startable() && header.future is Some {
            Some(header.after_start())
        } else {
            Some(header)
        },
        TaskEvent::FinishPoll(future, polled) => if !header.running() {
            Some(header)
        } else if header.poll_frees(polled) {
            None
        } else {
            Some(header.after_poll(future, polled))
        },
        TaskEvent::Panic => if !header.running() {
            Some(header)
        } else if header.panic_frees() {
            None
        } else {
            Some(header.after_panic())
        },
    }
}

/// The header of a task after a sequence of events; `None` if the task is gone.
pub open spec fn after_all<F, T, W>(
    header: Header<F, T, W>,
    events: Seq<TaskEvent<F, T, W>>,
) -> Option<Header<F, T, W>>
    decreases events.len(),
{
    if events.len() == 0 {
        Some(header)
    } else {
        match after_all(header, events.drop_last()) {
            Some(before) => after(before, events.last()),
            None => None,
        }
    }
}

/// How many wakers are there after some events, besides that of a poll.
pub open spec fn live_wakers<F, T, W>(events: Seq<TaskEvent<F, T, W>>) -> int
    decreases events.len(),
{
    if events.len() == 0 {
        0
    } else {
        live_wakers(events.drop_last()) + match events.last() {
            TaskEvent::CloneWaker => 1int,
            TaskEvent::DropWaker => -1int,
            _ => 0int,
        }
    }
}

/// Whether events drop only wakers that there are, and never leave more of them
/// than the 16 bits of the reference count can hold.
pub open spec fn wakers_fit<F, T, W>(events: Seq<TaskEvent<F, T, W>>) -> bool
    decreases events.len(),
{
    events.len() == 0 || {
        &&& wakers_fit(events.drop_last())
        &&& 0 <= live_wakers(events) <= 0xFFFD
    }
}

/// Whether the join handle was dropped by some events.
pub open spec fn handle_dropped<F, T, W>(events: Seq<TaskEvent<F, T, W>>) -> bool
    decreases events.len(),
{
    events.len() > 0 && (handle_dropped(events.drop_last()) || events.last() is Detach)
}

/// A woken word keeps all but its two state bits, and an idle one becomes scheduled.
proof fn lemma_woken_word(bits: usize)
    ensures
        wakeable(bits) ==> state_of(woken(bits)) == TaskState::SCHEDULED,
        !wakeable(bits) ==> woken(bits) == bits,
        flags_of(woken(bits)) == flags_of(bits),
        aborted_bit(woken(bits)) == aborted_bit(bits),
        join_interest_bit(woken(bits)) == join_interest_bit(bits),
        panicked_bit(woken(bits)) == panicked_bit(bits),
        refcount_of(woken(bits)) == refcount_of(bits),
{
    lemma_state_word(bits, TaskState::SCHEDULED);
}

/// What giving back references after a poll does to a word.
proof fn lemma_given_back(bits: usize, detached: bool)
    ensures
        state_of(given_back(bits, detached)) == state_of(bits),
        aborted_bit(given_back(bits, detached)) == aborted_bit(bits),
        join_interest_bit(given_back(bits, detached)) == join_interest_bit(bits),
        panicked_bit(given_back(bits, detached)) == panicked_bit(bits),
        refcount_of(bits) >= 1 ==> refcount_of(given_back(bits, false)) == refcount_of(bits) - 1,
        refcount_of(bits) >= 2 && state_of(bits) == TaskState::COMPLETE ==> refcount_of(
            given_back(bits, true),
        ) == refcount_of(bits) - 2,
        refcount_of(bits) >= 1 && state_of(bits) != TaskState::COMPLETE ==> refcount_of(
            given_back(bits, detached),
        ) == refcount_of(bits) - 1,
        refcount_of(released(bits)) == (refcount_of(bits) + 0xFFFF) % 0x1_0000,
        state_of(released(bits)) == state_of(bits),
{
    lemma_counted_word(bits);
    lemma_counted_word(released(bits));
}

/// The words at the end of a poll.
proof fn lemma_poll_words<F, T, W>(header: Header<F, T, W>, polled: Poll<T>)
    ensures
        state_of(header.polled_bits(polled)) == (if polled is Ready {
            TaskState::COMPLETE
        } else if header.poll_schedules(polled) {
            TaskState::SCHEDULED
        } else {
            TaskState::IDLE
        }),
        aborted_bit(header.polled_bits(polled)) == header.aborted(),
        join_interest_bit(header.polled_bits(polled)) == header.join_interest(),
        panicked_bit(header.polled_bits(polled)) == header.panicked(),
        refcount_of(header.polled_bits(polled)) == refcount_of(header.state.bits),
        state_of(header.panicked_bits()) == TaskState::COMPLETE,
        aborted_bit(header.panicked_bits()) == header.aborted(),
        panicked_bit(header.panicked_bits()),
        refcount_of(header.panicked_bits()) == refcount_of(header.state.bits),
{
    let bits = header.state.bits;
    lemma_state_word(bits, TaskState::COMPLETE);
    lemma_state_word(bits, TaskState::SCHEDULED);
    lemma_state_word(bits, TaskState::IDLE);
    lemma_panicked_word(bits);
    lemma_state_word(bits | TaskState::PANICKED, TaskState::COMPLETE);
}

/// What is known of all words that one event may lead to.
proof fn lemma_event_words<F, T, W>(header: Header<F, T, W>, event: TaskEvent<F, T, W>)
    requires
        after(header, event) is Some,
    ensures
        header.complete() ==> after(header, event)->0.complete(),
        header.aborted() ==> after(header, event)->0.aborted(),
        after(header, event)->0.scheduler == header.scheduler,
        header.complete() ==> after(header, event)->0.stopped == header.stopped,
        !header.complete() && after(header, event)->0.complete() ==> after(header, event)->0.stopped
            == header.aborted(),
        !header.aborted() && !(event is Abort) ==> !after(header, event)->0.aborted(),
        header.panicked() ==> after(header, event)->0.panicked(),
        header.complete() ==> after(header, event)->0.panicked() == header.panicked(),
        state_of(header.state.bits) == TaskState::SCHEDULED && !(event is StartPoll) ==> state_of(
            after(header, event)->0.state.bits,
        ) == TaskState::SCHEDULED,
        header.running() && !(event is FinishPoll) && !(event is Panic) ==> after(
            header,
            event,
        )->0.running(),
        header.complete() && !(event is Read) ==> after(header, event)->0.output == header.output,
{
    let bits = header.state.bits;
    lemma_woken_word(bits);
    lemma_counted_word(bits);
    lemma_aborted_word(bits);
    lemma_join_word(bits);
    lemma_unjoined_word(bits);
    lemma_counted_word(bits & !TaskState::JOIN_INTEREST);
    lemma_state_word(retained(bits), TaskState::RUNNING);
    if let TaskEvent::FinishPoll(_, polled) = event {
        lemma_poll_words(header, polled);
        lemma_given_back(header.polled_bits(polled), header.detached);
    }
    if event is Panic {
        lemma_poll_words(header, Poll::Pending);
        lemma_given_back(header.panicked_bits(), header.detached);
    }
}

/// A task that is complete stays complete, whatever happens to it.
pub proof fn law_complete_is_final<F, T, W>(
    header: Header<F, T, W>,
    events: Seq<TaskEvent<F, T, W>>,
)
    requires
        header.complete(),
        after_all(header, events) is Some,
    ensures
        after_all(header, events)->0.complete(),
    decreases events.len(),
{
    if events.len() > 0 {
        law_complete_is_final(header, events.drop_last());
        lemma_event_words(after_all(header, events.drop_last())->0, events.last());
    }
}

/// Once a task was aborted before it completed, it is not polled again; and its
/// join handle gets nothing but the abortion, whatever else happens to the task,
/// even if a poll that had begun completes it.
pub proof fn law_abort_is_final<F, T, W>(header: Header<F, T, W>, events: Seq<TaskEvent<F, T, W>>)
    requires
        !header.complete(),
        after_all(header.after_abort(), events) is Some,
    ensures
        !after_all(header.after_abort(), events)->0.startable(),
        join_result(after_all(header.after_abort(), events)->0) == Poll::<
            Result<T, JoinError>,
        >::Ready(Err(JoinError::Aborted)),
{
    lemma_aborted_word(header.state.bits);
    lemma_stays_aborted(header.after_abort(), events);
}

/// No event makes a task that was aborted in time one that was not.
proof fn lemma_stays_aborted<F, T, W>(header: Header<F, T, W>, events: Seq<TaskEvent<F, T, W>>)
    requires
        header.aborted(),
        header.complete() ==> header.stopped,
        after_all(header, events) is Some,
    ensures
        after_all(header, events)->0.aborted(),
        after_all(header, events)->0.complete() ==> after_all(header, events)->0.stopped,
    decreases events.len(),
{
    if events.len() > 0 {
        lemma_stays_aborted(header, events.drop_last());
        lemma_event_words(after_all(header, events.drop_last())->0, events.last());
    }
}

/// Only an abort makes a join handle get one: whatever else happens to a task that was
/// made from a future, however often it is polled, and whether it is idle, scheduled,
/// running or complete.
pub proof fn law_only_an_abort_aborts<F, T, W>(
    first: F,
    scheduler: SchedulerData,
    events: Seq<TaskEvent<F, T, W>>,
)
    requires
        forall|i: int| 0 <= i < events.len() ==> !(#[trigger] events[i] is Abort),
        after_all(fresh_header::<F, T, W>(first, scheduler), events) is Some,
    ensures
        ({
            let header = after_all(fresh_header::<F, T, W>(first, scheduler), events)->0;
            &&& header.state.bits as int / 4 % 2 == 0
            &&& header.state.bits as int % 4 == 3 ==> !header.stopped
            &&& join_result(header) != Poll::<Result<T, JoinError>>::Ready(Err(JoinError::Aborted))
        }),
    decreases events.len(),
{
    let fresh = fresh_header::<F, T, W>(first, scheduler);
    if events.len() > 0 {
        let before = events.drop_last();
        assert forall|i: int| 0 <= i < before.len() implies !(#[trigger] before[i] is Abort) by {
            assert(before[i] == events[i]);
        }
        law_only_an_abort_aborts(first, scheduler, before);
        assert(!(events[events.len() - 1] is Abort));
        lemma_event_words(after_all(fresh, before)->0, events.last());
    }
}

/// The join handle of a task that was made from a future gets an abortion only if the
/// aborted flag of the task is set.
pub proof fn law_abortion_shows_in_the_flag<F, T, W>(
    first: F,
    scheduler: SchedulerData,
    events: Seq<TaskEvent<F, T, W>>,
)
    requires
        after_all(fresh_header::<F, T, W>(first, scheduler), events) is Some,
    ensures
        ({
            let header = after_all(fresh_header::<F, T, W>(first, scheduler), events)->0;
            &&& header.state.bits as int % 4 == 3 && header.stopped ==> header.state.bits as int / 4
                % 2 == 1
            &&& join_result(header) == Poll::<Result<T, JoinError>>::Ready(Err(JoinError::Aborted))
                ==> header.state.bits as int / 4 % 2 == 1
        }),
    decreases events.len(),
{
    let fresh = fresh_header::<F, T, W>(first, scheduler);
    if events.len() > 0 {
        law_abortion_shows_in_the_flag(first, scheduler, events.drop_last());
        lemma_event_words(after_all(fresh, events.drop_last())->0, events.last());
    }
}

/// An abort that comes after completion takes nothing away: the join handle gets
/// what it would have got.
pub proof fn law_late_abort_takes_nothing<F, T, W>(header: Header<F, T, W>)
    requires
        header.complete(),
    ensures
        join_result(header.after_abort()) == join_result(header),
{
    lemma_aborted_word(header.state.bits);
}

/// A task whose future panicked is complete, and its join handle learns of the
/// panic, unless the task was aborted before.
pub proof fn law_panic_reaches_join_handle<F, T, W>(
    header: Header<F, T, W>,
    events: Seq<TaskEvent<F, T, W>>,
)
    requires
        header.running(),
        !header.aborted(),
        header.output is None,
        after_all(header.after_panic(), events) is Some,
    ensures
        join_result(after_all(header.after_panic(), events)->0) == Poll::<
            Result<T, JoinError>,
        >::Ready(Err(JoinError::Panic)),
    decreases events.len(),
{
    lemma_poll_words(header, Poll::Pending);
    lemma_given_back(header.panicked_bits(), header.detached);
    lemma_panic_kept(header.after_panic(), events);
}

/// A task that is complete without an output stays so.
proof fn lemma_panic_kept<F, T, W>(header: Header<F, T, W>, events: Seq<TaskEvent<F, T, W>>)
    requires
        header.complete(),
        !header.stopped,
        header.panicked(),
        header.output is None,
        after_all(header, events) is Some,
    ensures
        after_all(header, events)->0.complete(),
        !after_all(header, events)->0.stopped,
        after_all(header, events)->0.panicked(),
        after_all(header, events)->0.output is None,
    decreases events.len(),
{
    if events.len() > 0 {
        lemma_panic_kept(header, events.drop_last());
        lemma_event_words(after_all(header, events.drop_last())->0, events.last());
    }
}

/// Between a wake-up that hands a task to its scheduler and its next run, no
/// other wake-up does.
pub proof fn law_scheduled_once_for_each_run<F, T, W>(
    header: Header<F, T, W>,
    events: Seq<TaskEvent<F, T, W>>,
)
    requires
        wakeable(header.state.bits),
        forall|i: int| 0 <= i < events.len() ==> !(#[trigger] events[i] is StartPoll),
        after_all(after_wake(header), events) is Some,
    ensures
        state_of(after_all(after_wake(header), events)->0.state.bits) == TaskState::SCHEDULED,
        !wakeable(after_all(after_wake(header), events)->0.state.bits),
    decreases events.len(),
{
    lemma_woken_word(header.state.bits);
    if events.len() > 0 {
        assert forall|i: int| 0 <= i < events.drop_last().len() implies !(
        #[trigger] events.drop_last()[i] is StartPoll) by {
            assert(!(events[i] is StartPoll));
        }
        law_scheduled_once_for_each_run(header, events.drop_last());
        assert(!(events[events.len() - 1] is StartPoll));
        lemma_event_words(after_all(after_wake(header), events.drop_last())->0, events.last());
    }
}

/// After a poll that was pending, a task that was not aborted can be woken again:
/// either it was woken meanwhile, and the end of the poll hands it to its
/// scheduler; or the next wake-up does.
pub proof fn law_pending_task_is_scheduled_again<F, T, W>(header: Header<F, T, W>, future: F)
    requires
        header.running(),
        !header.aborted(),
    ensures
        !header.poll_frees(Poll::Pending),
        header.poll_schedules(Poll::Pending) == header.woken,
        wakeable(header.after_poll(future, Poll::Pending).state.bits) == !header.woken,
        header.after_poll(future, Poll::Pending).startable(),
        header.after_poll(future, Poll::Pending).future == Some(future),
{
    lemma_poll_words(header, Poll::Pending);
    lemma_given_back(header.polled_bits(Poll::Pending), header.detached);
}

/// No wake-up is lost: a task that is neither complete nor aborted is handed to
/// its scheduler by the wake-up, or waits there already, or is being polled, and
/// then the end of the poll, whatever happens before it, hands it to its scheduler
/// if it is still pending and was not aborted.
pub proof fn law_no_wake_is_lost<F, T, W>(
    header: Header<F, T, W>,
    events: Seq<TaskEvent<F, T, W>>,
)
    requires
        !header.complete(),
        !header.aborted(),
        forall|i: int|
            0 <= i < events.len() ==> !(#[trigger] events[i] is FinishPoll) && !(events[i] is Panic)
                && !(events[i] is Abort),
        after_all(after_wake(header), events) is Some,
    ensures
        wakeable(header.state.bits) || state_of(header.state.bits) == TaskState::SCHEDULED
            || header.running(),
        header.running() ==> {
            &&& after_all(after_wake(header), events)->0.running()
            &&& after_all(after_wake(header), events)->0.poll_schedules(Poll::Pending)
        },
    decreases events.len(),
{
    lemma_woken_word(header.state.bits);
    if events.len() > 0 && header.running() {
        let before = events.drop_last();
        assert forall|i: int| 0 <= i < before.len() implies !(#[trigger] before[i] is FinishPoll)
            && !(before[i] is Panic) && !(before[i] is Abort) by {
            assert(before[i] == events[i]);
        }
        law_no_wake_is_lost(header, before);
        assert(events.last() == events[events.len() - 1]);
        lemma_event_words(after_all(after_wake(header), before)->0, events.last());
    }
}

/// A task that must run on a thread goes to the queue of that thread, whatever
/// happened to it, and wherever it is woken.
pub proof fn law_local_task_stays_on_its_thread<F, T, W>(
    header: Header<F, T, W>,
    thread: u64,
    events: Seq<TaskEvent<F, T, W>>,
    current: Option<u64>,
)
    requires
        header.scheduler is Some,
        header.scheduler->0.thread == Some(thread),
        after_all(header, events) is Some,
    ensures
        after_all(header, events)->0.scheduler == header.scheduler,
        schedule_of(after_all(header, events)->0.scheduler, current) == Schedule::Local(thread),
    decreases events.len(),
{
    if events.len() > 0 {
        law_local_task_stays_on_its_thread(header, thread, events.drop_last(), current);
        lemma_event_words(after_all(header, events.drop_last())->0, events.last());
    }
}

/// Waking a task changes neither its flags nor its reference count.
pub proof fn law_wake_keeps_flags_and_references<F, T, W>(header: Header<F, T, W>)
    ensures
        flags_of(after_wake(header).state.bits) == flags_of(header.state.bits),
        refcount_of(after_wake(header).state.bits) == refcount_of(header.state.bits),
{
    lemma_woken_word(header.state.bits);
}

/// Cloning a waker and dropping the clone leaves the task as it was, and does
/// not end it, unless the task is complete and no other reference is counted.
pub proof fn law_clone_then_drop<F, T, W>(header: Header<F, T, W>)
    requires
        !(header.complete() && refcount_of(header.state.bits) == 0),
    ensures
        after_all(header, seq![TaskEvent::CloneWaker, TaskEvent::DropWaker]) == Some(header),
{
    let events = seq![TaskEvent::<F, T, W>::CloneWaker, TaskEvent::DropWaker];
    lemma_retain_release(header.state.bits);
    lemma_counted_word(header.state.bits);
    assert(events.drop_last() =~= seq![TaskEvent::CloneWaker]);
    assert(events.drop_last().drop_last() =~= Seq::empty());
    reveal_with_fuel(after_all, 3);
}

/// A poll leaves the reference count as it found it, while the task has a join
/// handle: its end gives back what its start took.
#[verifier::spinoff_prover]
#[verifier::rlimit(60)]
pub proof fn law_poll_keeps_references<F, T, W>(
    header: Header<F, T, W>,
    future: F,
    polled: Poll<T>,
)
    requires
        header.startable(),
        !header.detached,
    ensures
        header.after_start().running(),
        refcount_of(header.after_start().after_poll(future, polled).state.bits) == refcount_of(
            header.state.bits,
        ),
        refcount_of(header.after_start().after_panic().state.bits) == refcount_of(
            header.state.bits,
        ),
{
    let bits = header.state.bits;
    let started = header.after_start();
    lemma_counted_word(bits);
    lemma_state_word(retained(bits), TaskState::RUNNING);
    lemma_poll_words(started, polled);
    lemma_counted_word(started.polled_bits(polled));
    lemma_counted_word(started.panicked_bits());
}

/// What a reference count stands for: one for each waker, one for a poll, and one
/// until the task is complete and its join handle is gone.
pub open spec fn references<F, T, W>(header: Header<F, T, W>, wakers: int) -> int {
    wakers + (if header.running() {
        1int
    } else {
        0int
    }) + (if header.complete() && header.detached {
        0int
    } else {
        1int
    })
}

/// Whether a header counts its references, given the number of its wakers.
pub open spec fn counts_references<F, T, W>(header: Header<F, T, W>, wakers: int) -> bool {
    &&& refcount_of(header.state.bits) == references(header, wakers)
    &&& header.complete() && header.detached ==> wakers > 0
}

/// One event keeps the reference count right, and the task goes only when it is
/// complete, its join handle is gone and no waker is left.
#[verifier::spinoff_prover]
#[verifier::rlimit(60)]
proof fn lemma_references_kept<F, T, W>(
    header: Header<F, T, W>,
    event: TaskEvent<F, T, W>,
    wakers: int,
    wakers_after: int,
)
    requires
        wakers_after == wakers + match event {
            TaskEvent::CloneWaker => 1int,
            TaskEvent::DropWaker => -1int,
            _ => 0int,
        },
        0 <= wakers <= 0xFFFD,
        0 <= wakers_after <= 0xFFFD,
        counts_references(header, wakers),
    ensures
        match after(header, event) {
            None => header.detached || event is Detach,
            Some(next) => {
                &&& counts_references(next, wakers_after)
                &&& next.detached == (header.detached || event is Detach)
            },
        },
{
    let bits = header.state.bits;
    match event {
        TaskEvent::CloneWaker => {
            lemma_counted_word(bits);
        },
        TaskEvent::Wake => {
            lemma_woken_word(bits);
        },
        TaskEvent::DropWaker => {
            lemma_counted_word(bits);
        },
        TaskEvent::Abort => {
            lemma_aborted_word(bits);
        },
        TaskEvent::Join(_) => {
            lemma_join_word(bits);
        },
        TaskEvent::Read => {},
        TaskEvent::Detach => {
            lemma_unjoined_word(bits);
            lemma_counted_word(bits & !TaskState::JOIN_INTEREST);
        },
        TaskEvent::StartPoll => {
            lemma_counted_word(bits);
            lemma_state_word(retained(bits), TaskState::RUNNING);
        },
        TaskEvent::FinishPoll(_, polled) => {
            lemma_poll_words(header, polled);
            lemma_given_back(header.polled_bits(polled), header.detached);
        },
        TaskEvent::Panic => {
            lemma_poll_words(header, Poll::Pending);
            lemma_given_back(header.panicked_bits(), header.detached);
        },
    }
}

/// The reference count of a task that was made from a future counts its
/// references; the task is there as long as its join handle is; and a complete
/// task without a join handle is there only as long as a waker is.
#[verifier::spinoff_prover]
#[verifier::rlimit(60)]
pub proof fn law_task_lives_as_long_as_it_is_referred_to<F, T, W>(
    first: F,
    scheduler: SchedulerData,
    events: Seq<TaskEvent<F, T, W>>,
)
    requires
        wakers_fit(events),
    ensures
        match after_all(fresh_header::<F, T, W>(first, scheduler), events) {
            None => handle_dropped(events),
            Some(header) => {
                &&& counts_references(header, live_wakers(events))
                &&& header.detached == handle_dropped(events)
            },
        },
    decreases events.len(),
{
    let fresh = fresh_header::<F, T, W>(first, scheduler);
    if events.len() > 0 {
        let before = events.drop_last();
        law_task_lives_as_long_as_it_is_referred_to(first, scheduler, before);
        assert(0 <= live_wakers(before) <= 0xFFFD) by {
            assert(wakers_fit(before));
            assert(before.len() == 0 ==> live_wakers(before) == 0);
        }
        if let Some(header) = after_all(fresh, before) {
            lemma_references_kept(
                header,
                events.last(),
                live_wakers(before),
                live_wakers(events),
            );
        }
    }
}

/// What a future returned is what the join handle gets, from the poll that
/// completed the task on, until the output is read, unless the task was aborted
/// before: however often the task is woken and run, its wakers are cloned and
/// dropped, and whatever else happens before and after that poll.
pub proof fn law_output_reaches_join_handle<F, T, W>(
    first: F,
    scheduler: SchedulerData,
    before: Seq<TaskEvent<F, T, W>>,
    future: F,
    output: T,
    later: Seq<TaskEvent<F, T, W>>,
)
    requires
        forall|i: int|
            0 <= i < before.len() ==> !(#[trigger] before[i] is Abort) && !(before[i] is Detach),
        forall|i: int|
            0 <= i < later.len() ==> !(#[trigger] later[i] is Read) && !(later[i] is Detach),
        wakers_fit(before.push(TaskEvent::FinishPoll(future, Poll::Ready(output))) + later),
        after_all(fresh_header::<F, T, W>(first, scheduler), before) matches Some(header)
            && header.running(),
    ensures
        ({
            let events = before.push(TaskEvent::FinishPoll(future, Poll::Ready(output))) + later;
            let header = after_all(fresh_header::<F, T, W>(first, scheduler), events);
            &&& header is Some
            &&& join_result(header->0) == Poll::<Result<T, JoinError>>::Ready(Ok(output))
        }),
    decreases later.len(),
{
    let end = TaskEvent::<F, T, W>::FinishPoll(future, Poll::Ready(output));
    let events = before.push(end) + later;
    let fresh = fresh_header::<F, T, W>(first, scheduler);
    assert forall|i: int| 0 <= i < events.len() implies !(#[trigger] events[i] is Detach) by {
        if i < before.len() {
            assert(!(before[i] is Detach));
        } else if i > before.len() {
            assert(!(later[i - before.len() - 1] is Detach));
        }
    }
    lemma_handle_kept(events);
    law_task_lives_as_long_as_it_is_referred_to(first, scheduler, events);
    if later.len() == 0 {
        assert(events =~= before.push(end));
        assert(events.drop_last() =~= before);
        let header = after_all(fresh, before)->0;
        lemma_not_aborted(fresh, before);
        lemma_poll_words(header, Poll::Ready(output));
        lemma_given_back(header.polled_bits(Poll::Ready(output)), header.detached);
    } else {
        let rest = later.drop_last();
        assert(events.drop_last() =~= before.push(end) + rest);
        assert forall|i: int| 0 <= i < rest.len() implies !(#[trigger] rest[i] is Read) && !(
        rest[i] is Detach) by {
            assert(rest[i] == later[i]);
        }
        law_output_reaches_join_handle(first, scheduler, before, future, output, rest);
        assert(!(later[later.len() - 1] is Read));
        assert(events.last() == later[later.len() - 1]);
        lemma_event_words(after_all(fresh, before.push(end) + rest)->0, events.last());
    }
}

/// Without the event that drops it a join handle is not dropped.
proof fn lemma_handle_kept<F, T, W>(events: Seq<TaskEvent<F, T, W>>)
    requires
        forall|i: int| 0 <= i < events.len() ==> !(#[trigger] events[i] is Detach),
    ensures
        !handle_dropped(events),
    decreases events.len(),
{
    if events.len() > 0 {
        let before = events.drop_last();
        assert forall|i: int| 0 <= i < before.len() implies !(#[trigger] before[i] is Detach) by {
            assert(before[i] == events[i]);
        }
        lemma_handle_kept(before);
        assert(!(events[events.len() - 1] is Detach));
    }
}

/// Without an abort a task is not aborted.
proof fn lemma_not_aborted<F, T, W>(header: Header<F, T, W>, events: Seq<TaskEvent<F, T, W>>)
    requires
        !header.aborted(),
        forall|i: int| 0 <= i < events.len() ==> !(#[trigger] events[i] is Abort),
        after_all(header, events) is Some,
    ensures
        !after_all(header, events)->0.aborted(),
    decreases events.len(),
{
    if events.len() > 0 {
        let before = events.drop_last();
        assert forall|i: int| 0 <= i < before.len() implies !(#[trigger] before[i] is Abort) by {
            assert(before[i] == events[i]);
        }
        lemma_not_aborted(header, before);
        assert(!(events[events.len() - 1] is Abort));
        lemma_event_words(after_all(header, before)->0, events.last());
    }
}

/// The output of a task is handed out once: after it was read, a join handle
/// learns that it was taken, whatever happens.
pub proof fn law_output_is_taken_once<F, T, W>(
    header: Header<F, T, W>,
    events: Seq<TaskEvent<F, T, W>>,
)
    requires
        header.readable(),
        !header.panicked(),
        after_all(header.after_read(), events) is Some,
    ensures
        join_result(after_all(header.after_read(), events)->0) == Poll::<
            Result<T, JoinError>,
        >::Ready(Err(JoinError::AlreadyTaken)),
        after_all(header.after_read(), events)->0.readable(),
        after_all(header.after_read(), events)->0.output is None,
        !after_all(header.after_read(), events)->0.panicked(),
    decreases events.len(),
{
    if events.len() > 0 {
        law_output_is_taken_once(header, events.drop_last());
        lemma_event_words(after_all(header.after_read(), events.drop_last())->0, events.last());
    }
}

/// A join handle that leaves its waker just after the task completed still gets
/// the result: leaving the waker changes nothing of what there is to read.
pub proof fn law_late_waker_loses_no_result<F, T, W>(header: Header<F, T, W>, waker: W)
    requires
        header.complete(),
    ensures
        header.after_join(waker).complete(),
        join_result(header.after_join(waker)) == join_result(header),
        join_result(header) is Ready,
{
    lemma_join_word(header.state.bits);
}

/// Whether an event neither ends the task nor leaves another join waker with it.
pub open spec fn leaves_join<F, T, W>(event: TaskEvent<F, T, W>) -> bool {
    match event {
        TaskEvent::Abort => false,
        TaskEvent::Join(_) => false,
        TaskEvent::FinishPoll(_, polled) => polled is Pending,
        TaskEvent::Panic => false,
        _ => true,
    }
}

/// A waker that a join handle left with a task that was not complete is woken
/// by the poll that completes the task, by one that panics, and by an abort,
/// whatever happened in between: no wake-up is lost.
pub proof fn law_join_waker_is_woken<F, T, W>(
    header: Header<F, T, W>,
    waker: W,
    events: Seq<TaskEvent<F, T, W>>,
    output: T,
)
    requires
        !header.complete(),
        forall|i: int| 0 <= i < events.len() ==> leaves_join(#[trigger] events[i]),
        after_all(header.after_join(waker), events) is Some,
    ensures
        !after_all(header.after_join(waker), events)->0.complete(),
        after_all(header.after_join(waker), events)->0.poll_wakes(Poll::Ready(output)) == Some(
            waker,
        ),
        after_all(header.after_join(waker), events)->0.abort_wakes() == Some(waker),
    decreases events.len(),
{
    let joined = header.after_join(waker);
    lemma_join_word(header.state.bits);
    if events.len() > 0 {
        let before = after_all(joined, events.drop_last())->0;
        let bits = before.state.bits;
        assert forall|i: int| 0 <= i < events.drop_last().len() implies leaves_join(
            #[trigger] events.drop_last()[i],
        ) by {
            assert(leaves_join(events[i]));
        }
        law_join_waker_is_woken(header, waker, events.drop_last(), output);
        assert(leaves_join(events[events.len() - 1]));
        lemma_woken_word(bits);
        lemma_counted_word(bits);
        lemma_state_word(retained(bits), TaskState::RUNNING);
        lemma_poll_words(before, Poll::Pending);
        lemma_given_back(before.polled_bits(Poll::Pending), before.detached);
    }
}

} // verus!

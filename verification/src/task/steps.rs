//! What each step does to a task, said of its state word as a number.

use crate::task::raw::{fresh_header, schedule_of, Header, Poll, Schedule, SchedulerData};
use crate::task::state::{
    aborted_bit, flags_of, join_interest_bit, lemma_aborted_word, lemma_counted_word,
    lemma_join_word, lemma_panicked_word, lemma_state_word, lemma_unjoined_word, panicked_bit,
    refcount_of, released, retained, state_of, with_state, TaskState,
};
use crate::task::waker::{after_wake, wakeable, without_waker};
use crate::task::{after_join_poll, join_result, JoinError};
use vstd::prelude::*;

verus! {

/// Where a state word keeps what: the state in its lowest two bits, the aborted,
/// join-interest and panicked flags in the three bits above, and the reference
/// count in bits 16 to 31.
pub proof fn law_state_word_layout(bits: usize)
    ensures
        state_of(bits) == bits as int % 4,
        aborted_bit(bits) <==> bits as int / 4 % 2 == 1,
        join_interest_bit(bits) <==> bits as int / 8 % 2 == 1,
        panicked_bit(bits) <==> bits as int / 16 % 2 == 1,
        flags_of(bits) == bits as int % 0x1_0000 - bits as int % 4,
        refcount_of(bits) == bits as int / 0x1_0000 % 0x1_0000,
        TaskState::IDLE == 0,
        TaskState::SCHEDULED == 1,
        TaskState::RUNNING == 2,
        TaskState::COMPLETE == 3,
{
}

/// The words that set and clear one flag, take and give back one reference, and
/// change the state.
pub proof fn law_state_word_arithmetic(bits: usize, state: usize)
    requires
        state <= 3,
    ensures
        bits | TaskState::ABORTED == bits + 4 - bits as int / 4 % 2 * 4,
        bits | TaskState::JOIN_INTEREST == bits + 8 - bits as int / 8 % 2 * 8,
        bits | TaskState::PANICKED == bits + 16 - bits as int / 16 % 2 * 16,
        bits & !TaskState::JOIN_INTEREST == bits - bits as int / 8 % 2 * 8,
        with_state(bits, state) == bits - bits as int % 4 + state,
        bits + 0x1_0000 <= usize::MAX ==> retained(bits) == bits + 0x1_0000,
        bits >= 0x1_0000 ==> released(bits) == bits - 0x1_0000,
        released(retained(bits)) == bits,
        retained(released(bits)) == bits,
{
    assert({
        &&& bits | 4 == bits + 4 - bits / 4 % 2 * 4
        &&& bits | 8 == bits + 8 - bits / 8 % 2 * 8
        &&& bits | 16 == bits + 16 - bits / 16 % 2 * 16
        &&& bits & !8usize == bits - bits / 8 % 2 * 8
    }) by (bit_vector);
    assert(usize::MAX as int == 0xFFFF_FFFF || usize::MAX as int == 0xFFFF_FFFF_FFFF_FFFF);
}

/// What a join handle gets is decided by the task alone: nothing yet, as long as the
/// task is neither complete nor aborted, whether it is idle, scheduled or running; the
/// abortion, if that came before completion; else the output, until it is taken.
pub proof fn law_join_result_of_a_task<F, T, W>(header: Header<F, T, W>)
    ensures
        ({
            let bits = header.state.bits as int;
            let got = join_result(header);
            &&& got is Pending <==> bits % 4 != 3 && bits / 4 % 2 == 0
            &&& got == Poll::<Result<T, JoinError>>::Ready(Err(JoinError::Aborted)) <==> if bits % 4
                == 3 {
                header.stopped
            } else {
                bits / 4 % 2 == 1
            }
            &&& forall|output: T|
                got == Poll::<Result<T, JoinError>>::Ready(Ok(output)) <==> bits % 4 == 3
                    && !header.stopped && header.output == Some(output)
            &&& got == Poll::<Result<T, JoinError>>::Ready(Err(JoinError::Panic)) <==> bits % 4 == 3
                && !header.stopped && header.output is None && bits / 16 % 2 == 1
            &&& got == Poll::<Result<T, JoinError>>::Ready(Err(JoinError::AlreadyTaken)) <==> bits
                % 4 == 3 && !header.stopped && header.output is None && bits / 16 % 2 == 0
        }),
{
}

/// Polling the join handle of a task that is neither complete nor aborted is pending,
/// sets the join-interest flag, leaves the waker of the poll with the task, and
/// changes nothing else, whether the task is idle, scheduled or running.
pub proof fn law_join_poll_waits_for_a_task<F, T, W>(header: Header<F, T, W>, waker: W)
    requires
        header.state.bits as int % 4 != 3,
        header.state.bits as int / 4 % 2 == 0,
    ensures
        join_result(header) is Pending,
        ({
            let bits = header.state.bits as int;
            let next = after_join_poll(header, waker);
            &&& next.state.bits as int / 8 % 2 == 1
            &&& next.state.bits == bits + 8 - bits / 8 % 2 * 8
            &&& next.join_waker == Some(waker)
            &&& next == (Header { state: next.state, join_waker: Some(waker), ..header })
        }),
{
    law_state_word_arithmetic(header.state.bits, 0);
    lemma_join_word(header.state.bits);
}

/// Polling the join handle of a complete task takes the output, if it may be read,
/// and leaves no waker; one of an aborted task changes nothing.
pub proof fn law_join_poll_takes_the_output<F, T, W>(header: Header<F, T, W>, waker: W)
    requires
        header.state.bits as int % 4 == 3 || header.state.bits as int / 4 % 2 == 1,
    ensures
        join_result(header) is Ready,
        header.state.bits as int % 4 == 3 && !header.stopped ==> after_join_poll(header, waker) == (
        Header { output: None, ..header }),
        header.state.bits as int % 4 != 3 || header.stopped ==> after_join_poll(header, waker)
            == header,
{
}

/// An output is there to be read once a task is complete, unless it was aborted before;
/// reading takes the output and nothing else; and a waker that is left, by whatever
/// way, sets the join-interest flag and is the join waker from then on.
pub proof fn law_reading_and_joining<F, T, W>(header: Header<F, T, W>, waker: W)
    ensures
        header.readable() <==> header.state.bits as int % 4 == 3 && !header.stopped,
        header.state.bits as int % 4 == 3 && !header.stopped ==> header.after_read() == (Header {
            output: None,
            ..header
        }),
        header.state.bits as int % 4 != 3 || header.stopped ==> header.after_read() == header,
        header.after_join(waker).state.bits == header.state.bits + 8 - header.state.bits as int / 8
            % 2 * 8,
        header.after_join(waker) == (Header {
            state: header.after_join(waker).state,
            join_waker: Some(waker),
            ..header
        }),
{
    law_state_word_arithmetic(header.state.bits, 0);
}

/// A wake-up takes an idle task that was not aborted to scheduled, and such a task
/// alone is handed to its scheduler; one that is running and was not aborted remembers
/// the wake-up; any other is left as it was.
pub proof fn law_wake_by_state<F, T, W>(header: Header<F, T, W>)
    ensures
        ({
            let bits = header.state.bits as int;
            let next = after_wake(header);
            &&& wakeable(header.state.bits) <==> bits % 4 == 0 && bits / 4 % 2 == 0
            &&& bits % 4 == 0 && bits / 4 % 2 == 0 ==> {
                &&& next.state.bits == bits + 1
                &&& next == (Header { state: next.state, ..header })
            }
            &&& bits % 4 == 2 && bits / 4 % 2 == 0 ==> next == (Header { woken: true, ..header })
            &&& bits % 4 == 1 || bits % 4 == 3 || bits / 4 % 2 == 1 ==> next == header
        }),
{
    assert(usize::MAX as int == 0xFFFF_FFFF || usize::MAX as int == 0xFFFF_FFFF_FFFF_FFFF);
}

/// A task may be polled if it is idle or scheduled and was not aborted. Then it is
/// running, with one more reference, its flags as they were, its future out, and no
/// wake-up remembered.
pub proof fn law_poll_starts<F, T, W>(header: Header<F, T, W>)
    ensures
        ({
            let bits = header.state.bits as int;
            let next = header.after_start();
            let word = next.state.bits as int;
            &&& header.startable() <==> bits / 4 % 2 == 0 && (bits % 4 == 0 || bits % 4 == 1)
            &&& word % 4 == 2
            &&& word % 0x1_0000 - word % 4 == bits % 0x1_0000 - bits % 4
            &&& word / 0x1_0000 % 0x1_0000 == (bits / 0x1_0000 % 0x1_0000 + 1) % 0x1_0000
            &&& next == (Header { state: next.state, future: None, woken: false, ..header })
        }),
{
    let bits = header.state.bits;
    lemma_counted_word(bits);
    lemma_state_word(retained(bits), TaskState::RUNNING);
}

/// At the end of a poll the future is back. With an output the task is complete,
/// remembers whether it was aborted before, and wakes and forgets the waker of a join
/// handle that waits; while pending it is scheduled if it was woken meanwhile and was
/// not aborted, and else idle. Its flags stay as they were.
pub proof fn law_poll_ends<F, T, W>(header: Header<F, T, W>, future: F, polled: Poll<T>)
    ensures
        ({
            let bits = header.state.bits as int;
            let next = header.after_poll(future, polled);
            let word = next.state.bits as int;
            let again = header.woken && bits / 4 % 2 == 0;
            &&& word / 4 % 2 == bits / 4 % 2
            &&& word / 8 % 2 == bits / 8 % 2
            &&& word / 16 % 2 == bits / 16 % 2
            &&& match polled {
                Poll::Ready(output) => {
                    &&& word % 4 == 3
                    &&& !header.poll_schedules(polled)
                    &&& header.poll_wakes(polled) == (if bits / 8 % 2 == 1 {
                        header.join_waker
                    } else {
                        None
                    })
                    &&& next.join_waker == (if bits / 8 % 2 == 1 {
                        None
                    } else {
                        header.join_waker
                    })
                    &&& next == (Header {
                        state: next.state,
                        future: Some(future),
                        output: Some(output),
                        join_waker: next.join_waker,
                        woken: false,
                        stopped: bits / 4 % 2 == 1,
                        ..header
                    })
                },
                Poll::Pending => {
                    &&& word % 4 == (if again {
                        1int
                    } else {
                        0
                    })
                    &&& header.poll_schedules(polled) == again
                    &&& header.poll_wakes(polled) is None
                    &&& next == (Header {
                        state: next.state,
                        future: Some(future),
                        woken: false,
                        ..header
                    })
                },
            }
        }),
{
    lemma_poll_end_words(header, polled);
}

/// The words at the end of a poll, of a task whose poll has a reference.
proof fn lemma_poll_end_words<F, T, W>(header: Header<F, T, W>, polled: Poll<T>)
    ensures
        ({
            let mid = header.polled_bits(polled);
            &&& state_of(mid) == (if polled is Ready {
                3int
            } else if header.woken && !header.aborted() {
                1
            } else {
                0
            })
            &&& flags_of(mid) == flags_of(header.state.bits)
            &&& refcount_of(mid) == refcount_of(header.state.bits)
            &&& aborted_bit(mid) == header.aborted()
            &&& join_interest_bit(mid) == header.join_interest()
            &&& panicked_bit(mid) == header.panicked()
        }),
        forall|bits: usize|
            #![trigger released(bits)]
            {
                &&& state_of(released(bits)) == state_of(bits)
                &&& aborted_bit(released(bits)) == aborted_bit(bits)
                &&& join_interest_bit(released(bits)) == join_interest_bit(bits)
                &&& panicked_bit(released(bits)) == panicked_bit(bits)
                &&& refcount_of(released(bits)) == (refcount_of(bits) + 0xFFFF) % 0x1_0000
            },
{
    lemma_state_word(header.state.bits, TaskState::COMPLETE);
    lemma_state_word(header.state.bits, TaskState::SCHEDULED);
    lemma_state_word(header.state.bits, TaskState::IDLE);
    assert forall|bits: usize|
        #![trigger released(bits)]
        {
            &&& state_of(released(bits)) == state_of(bits)
            &&& aborted_bit(released(bits)) == aborted_bit(bits)
            &&& join_interest_bit(released(bits)) == join_interest_bit(bits)
            &&& panicked_bit(released(bits)) == panicked_bit(bits)
            &&& refcount_of(released(bits)) == (refcount_of(bits) + 0xFFFF) % 0x1_0000
        } by {
        lemma_counted_word(bits);
    }
}

/// The end of a poll gives back the reference of the poll and, where the task is then
/// complete and its join handle is gone, the one that the task was made with; and the
/// task goes exactly when it is complete and the last of its references is given back.
pub proof fn law_poll_gives_back_references<F, T, W>(
    header: Header<F, T, W>,
    future: F,
    polled: Poll<T>,
)
    requires
        header.state.bits as int / 0x1_0000 % 0x1_0000 >= 1,
    ensures
        ({
            let count = header.state.bits as int / 0x1_0000 % 0x1_0000;
            let left = header.after_poll(future, polled).state.bits as int / 0x1_0000 % 0x1_0000;
            &&& header.poll_frees(polled) <==> polled is Ready && (count == 1 || (header.detached
                && count == 2))
            &&& polled is Pending || !header.detached ==> left == count - 1
            &&& polled is Ready && header.detached && count >= 2 ==> left == count - 2
        }),
{
    lemma_poll_end_words(header, polled);
}

/// A poll that panicked completes the task without an output, with the panicked flag
/// set and the other flags as they were; wakes and forgets the waker of a join handle
/// that waits; and gives back references as a poll with an output does.
pub proof fn law_poll_panics<F, T, W>(header: Header<F, T, W>)
    requires
        header.state.bits as int / 0x1_0000 % 0x1_0000 >= 1,
    ensures
        ({
            let bits = header.state.bits as int;
            let next = header.after_panic();
            let word = next.state.bits as int;
            let count = bits / 0x1_0000 % 0x1_0000;
            &&& word % 4 == 3
            &&& word / 4 % 2 == bits / 4 % 2
            &&& word / 8 % 2 == bits / 8 % 2
            &&& word / 16 % 2 == 1
            &&& !header.detached ==> word / 0x1_0000 % 0x1_0000 == count - 1
            &&& header.detached && count >= 2 ==> word / 0x1_0000 % 0x1_0000 == count - 2
            &&& header.panic_frees() <==> count == 1 || (header.detached && count == 2)
            &&& header.abort_wakes() == (if bits / 8 % 2 == 1 {
                header.join_waker
            } else {
                None
            })
            &&& next.join_waker == (if bits / 8 % 2 == 1 {
                None
            } else {
                header.join_waker
            })
            &&& next == (Header {
                state: next.state,
                join_waker: next.join_waker,
                woken: false,
                stopped: bits / 4 % 2 == 1,
                ..header
            })
        }),
{
    let bits = header.state.bits;
    lemma_panicked_word(bits);
    lemma_state_word(bits | TaskState::PANICKED, TaskState::COMPLETE);
    lemma_poll_end_words(header, Poll::Pending);
}

/// Aborting sets the aborted flag and leaves state, reference count and the other flags
/// alone; it wakes and forgets the waker of a join handle that waits.
pub proof fn law_abort_sets_the_flag<F, T, W>(header: Header<F, T, W>)
    ensures
        ({
            let bits = header.state.bits as int;
            let next = header.after_abort();
            &&& next.state.bits as int / 4 % 2 == 1
            &&& next.state.bits == bits + 4 - bits / 4 % 2 * 4
            &&& header.abort_wakes() == (if bits / 8 % 2 == 1 {
                header.join_waker
            } else {
                None
            })
            &&& next.join_waker == (if bits / 8 % 2 == 1 {
                None
            } else {
                header.join_waker
            })
            &&& next == (Header { state: next.state, join_waker: next.join_waker, ..header })
        }),
{
    law_state_word_arithmetic(header.state.bits, 0);
    lemma_aborted_word(header.state.bits);
}

/// A join handle that is dropped leaves a task that is not complete as it is, but for
/// being gone. From a complete task it takes its waker, the join-interest flag and,
/// the first time, its reference; and with the last one the task.
pub proof fn law_detach_by_state<F, T, W>(header: Header<F, T, W>)
    ensures
        ({
            let bits = header.state.bits as int;
            let next = header.after_detach();
            let word = next.state.bits as int;
            let count = bits / 0x1_0000 % 0x1_0000;
            &&& header.detach_frees() <==> !header.detached && bits % 4 == 3 && count == 1
            &&& bits % 4 != 3 ==> next == (Header { detached: true, ..header })
            &&& bits % 4 == 3 ==> {
                &&& word % 4 == 3
                &&& word / 4 % 2 == bits / 4 % 2
                &&& word / 8 % 2 == 0
                &&& word / 16 % 2 == bits / 16 % 2
                &&& header.detached ==> word / 0x1_0000 % 0x1_0000 == count
                &&& !header.detached && count >= 1 ==> word / 0x1_0000 % 0x1_0000 == count - 1
                &&& next == (Header {
                    state: next.state,
                    join_waker: None,
                    detached: true,
                    ..header
                })
            }
        }),
{
    lemma_unjoined_word(header.state.bits);
    lemma_counted_word(header.state.bits & !TaskState::JOIN_INTEREST);
}

/// Dropping a waker gives back one reference and touches no other task. A task that is
/// complete goes with its last reference, and no other does.
pub proof fn law_waker_drop_by_state<F, T, W>(tasks: Map<u64, Header<F, T, W>>, key: u64)
    requires
        tasks.contains_key(key),
    ensures
        ({
            let bits = tasks[key].state.bits as int;
            let left = without_waker(tasks, key);
            let count = bits / 0x1_0000 % 0x1_0000;
            &&& left.contains_key(key) <==> !(bits % 4 == 3 && count == 1)
            &&& left.remove(key) == tasks.remove(key)
            &&& left.contains_key(key) ==> {
                &&& left[key] == (Header { state: left[key].state, ..tasks[key] })
                &&& left[key].state.bits as int % 0x1_0000 - left[key].state.bits as int % 4 == bits
                    % 0x1_0000 - bits % 4
                &&& left[key].state.bits as int % 4 == bits % 4
                &&& left[key].state.bits as int / 0x1_0000 % 0x1_0000 == (count + 0xFFFF)
                    % 0x1_0000
            }
        }),
{
    lemma_counted_word(tasks[key].state.bits);
    assert(without_waker(tasks, key).remove(key) =~= tasks.remove(key));
}

/// Where a woken task goes: to the thread that it must run on, if there is one; else to
/// the runtime that it was made for; else to the one that is current; and it is run on
/// the spot only if there is none of these, or it has no scheduler.
pub proof fn law_where_a_task_goes(scheduler: Option<SchedulerData>, current: Option<u64>)
    ensures
        forall|thread: u64|
            schedule_of(scheduler, current) == Schedule::Local(thread) <==> scheduler is Some
                && scheduler->0.thread == Some(thread),
        forall|runtime: u64|
            schedule_of(scheduler, current) == Schedule::Push(runtime) <==> scheduler is Some
                && scheduler->0.thread is None && (scheduler->0.shared == Some(runtime) || (
            scheduler->0.shared is None && current == Some(runtime))),
        schedule_of(scheduler, current) is Run <==> scheduler is None || (scheduler->0.thread is None
            && scheduler->0.shared is None && current is None),
{
}

/// A task that was just made is idle, with one reference and no flag; it has its future
/// and its scheduler, and nothing has happened to it.
pub proof fn law_fresh_task_is_idle<F, T, W>(future: F, scheduler: SchedulerData)
    ensures
        ({
            let header = fresh_header::<F, T, W>(future, scheduler);
            let bits = header.state.bits as int;
            &&& bits % 4 == 0
            &&& bits % 0x1_0000 == 0
            &&& bits / 0x1_0000 == 1
            &&& header.scheduler == Some(scheduler)
            &&& header.future == Some(future)
            &&& header.output is None
            &&& header.join_waker is None
            &&& !header.woken && !header.detached && !header.stopped
            &&& header.startable()
            &&& join_result(header) is Pending
        }),
{
}

} // verus!

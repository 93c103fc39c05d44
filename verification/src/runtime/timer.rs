//! Timers that wake when their deadline has come.

use std::collections::VecDeque;
use vstd::prelude::*;

verus! {

/// A deadline, and the waker to wake then.
pub struct TimerEntry<W> {
    pub deadline: u128,
    pub waker: W,
}

/// Whether entries stand in the order of their deadlines.
pub open spec fn by_deadline<W>(entries: Seq<TimerEntry<W>>) -> bool {
    forall|i: int, j: int|
        0 <= i <= j < entries.len() ==> (#[trigger] entries[i]).deadline <= (
        #[trigger] entries[j]).deadline
}

/// How many of the entries, which stand in order, have a deadline up to `time`.
pub open spec fn count_due<W>(entries: Seq<TimerEntry<W>>, time: u128) -> nat
    decreases entries.len(),
{
    if entries.len() == 0 || entries[0].deadline > time {
        0
    } else {
        1 + count_due(entries.drop_first(), time)
    }
}

/// The wakers of entries.
pub open spec fn wakers_of<W>(entries: Seq<TimerEntry<W>>) -> Seq<W> {
    entries.map_values(|entry: TimerEntry<W>| entry.waker)
}

/// Time driver for timeouts and intervals.
pub struct TimeDriver<W> {
    timers: VecDeque<TimerEntry<W>>,
}

impl<W> TimeDriver<W> {
    /// The timers, in the order in which they come due.
    pub closed spec fn entries(self) -> Seq<TimerEntry<W>> {
        self.timers@
    }

    /// The timers stand in the order of their deadlines.
    pub open spec fn wf(self) -> bool {
        by_deadline(self.entries())
    }

    /// A driver without timers.
    pub fn new() -> (r: Self)
        ensures
            r.wf(),
            r.entries() == Seq::<TimerEntry<W>>::empty(),
    {
        TimeDriver { timers: VecDeque::new() }
    }

    /// Schedule a timer: behind all that have the same deadline or an earlier one.
    pub fn schedule(&mut self, deadline: u128, waker: W)
        requires
            old(self).wf(),
        ensures
            final(self).wf(),
            final(self).entries() == old(self).entries().insert(
                count_due(old(self).entries(), deadline) as int,
                TimerEntry { deadline, waker },
            ),
    {
        let mut at: usize = 0;
        let ghost all = self.timers@;
        assert(all.skip(0) =~= all);
        while at < self.timers.len() && self.timers[at].deadline <= deadline
            invariant
                at <= self.timers@.len(),
                self.timers@ == all,
                all == old(self).entries(),
                count_due(all, deadline) == at + count_due(all.skip(at as int), deadline),
            decreases self.timers@.len() - at,
        {
            assert(all.skip(at as int).drop_first() =~= all.skip(at + 1));
            at += 1;
        }
        assert(count_due(all.skip(at as int), deadline) == 0);
        proof {
            lemma_due_is_prefix(all, deadline);
        }
        self.timers.insert(at, TimerEntry { deadline, waker });
    }

    /// Get the next deadline.
    pub fn next_deadline(&self) -> (deadline: Option<u128>)
        requires
            self.wf(),
        ensures
            deadline is None <==> self.entries().len() == 0,
            deadline is Some ==> deadline->0 == self.entries()[0].deadline,
    {
        if self.timers.len() == 0 {
            None
        } else {
            Some(self.timers[0].deadline)
        }
    }

    /// Process the timers that have expired: they leave, and their wakers come
    /// back to be woken in the order of the deadlines.
    pub fn process(&mut self, now: u128) -> (woken: Vec<W>)
        requires
            old(self).wf(),
        ensures
            final(self).wf(),
            ({
                let due = count_due(old(self).entries(), now) as int;
                &&& woken@ == wakers_of(old(self).entries().take(due))
                &&& final(self).entries() == old(self).entries().skip(due)
            }),
    {
        let mut woken: Vec<W> = Vec::new();
        let ghost all = self.timers@;
        let ghost mut due: int = 0;
        proof {
            assert(all.skip(0) =~= all);
            assert(wakers_of(all.take(0)) =~= woken@);
        }
        while self.timers.len() > 0 && self.timers[0].deadline <= now
            invariant
                0 <= due <= all.len(),
                all == old(self).entries(),
                self.timers@ == all.skip(due),
                woken@ == wakers_of(all.take(due)),
                count_due(all, now) == due + count_due(all.skip(due), now),
            decreases self.timers@.len(),
        {
            proof {
                assert(all.skip(due).drop_first() =~= all.skip(due + 1));
                assert(wakers_of(all.take(due + 1)) =~= wakers_of(all.take(due)).push(
                    all[due].waker,
                ));
            }
            if let Some(entry) = self.timers.pop_front() {
                woken.push(entry.waker);
            }
            proof {
                assert(self.timers@ =~= all.skip(due + 1));
                due = due + 1;
            }
        }
        assert(count_due(all.skip(due), now) == 0);
        woken
    }
}

/// The entries that are due stand before those that are not.
pub(crate) proof fn lemma_due_is_prefix<W>(entries: Seq<TimerEntry<W>>, time: u128)
    requires
        by_deadline(entries),
    ensures
        count_due(entries, time) <= entries.len(),
        forall|i: int|
            0 <= i < count_due(entries, time) ==> (#[trigger] entries[i]).deadline <= time,
        forall|i: int|
            count_due(entries, time) <= i < entries.len() ==> (#[trigger] entries[i]).deadline
                > time,
    decreases entries.len(),
{
    if entries.len() > 0 && entries[0].deadline <= time {
        let rest = entries.drop_first();
        lemma_due_is_prefix(rest, time);
        assert forall|i: int| 0 <= i < count_due(entries, time) implies (
        #[trigger] entries[i]).deadline <= time by {
            if i > 0 {
                assert(entries[i] == rest[i - 1]);
            }
        }
        assert forall|i: int| count_due(entries, time) <= i < entries.len() implies (
        #[trigger] entries[i]).deadline > time by {
            assert(entries[i] == rest[i - 1]);
        }
    }
}

/// Processing wakes exactly the timers whose deadline has come, in the order of
/// their deadlines, and leaves exactly the others.
pub proof fn law_process_wakes_what_is_due<W>(driver: TimeDriver<W>, now: u128)
    requires
        driver.wf(),
    ensures
        ({
            let due = count_due(driver.entries(), now) as int;
            let woken = driver.entries().take(due);
            let left = driver.entries().skip(due);
            &&& woken + left == driver.entries()
            &&& by_deadline(woken)
            &&& forall|i: int| 0 <= i < woken.len() ==> (#[trigger] woken[i]).deadline <= now
            &&& forall|i: int| 0 <= i < left.len() ==> (#[trigger] left[i]).deadline > now
        }),
{
    lemma_due_is_prefix(driver.entries(), now);
    let due = count_due(driver.entries(), now) as int;
    assert(driver.entries().take(due) + driver.entries().skip(due) =~= driver.entries());
}

/// Scheduling adds the one timer and loses none.
pub proof fn law_schedule_adds_one<W>(driver: TimeDriver<W>, entry: TimerEntry<W>)
    requires
        driver.wf(),
    ensures
        driver.entries().insert(
            count_due(driver.entries(), entry.deadline) as int,
            entry,
        ).to_multiset() == driver.entries().to_multiset().insert(entry),
{
    lemma_due_is_prefix(driver.entries(), entry.deadline);
    vstd::seq_lib::to_multiset_insert(
        driver.entries(),
        count_due(driver.entries(), entry.deadline) as int,
        entry,
    );
}

/// A new timer stands behind all that come due before it or with it, and before all that
/// come due after it; and those keep their order.
pub proof fn law_schedule_keeps_the_order<W>(driver: TimeDriver<W>, entry: TimerEntry<W>)
    requires
        driver.wf(),
    ensures
        ({
            let at = count_due(driver.entries(), entry.deadline) as int;
            let entries = driver.entries().insert(at, entry);
            &&& 0 <= at <= driver.entries().len()
            &&& entries == driver.entries().take(at) + seq![entry] + driver.entries().skip(at)
            &&& forall|i: int|
                0 <= i < at ==> (#[trigger] driver.entries()[i]).deadline <= entry.deadline
            &&& forall|i: int|
                at <= i < driver.entries().len() ==> (#[trigger] driver.entries()[i]).deadline
                    > entry.deadline
        }),
{
    let at = count_due(driver.entries(), entry.deadline) as int;
    lemma_due_is_prefix(driver.entries(), entry.deadline);
    assert(driver.entries().insert(at, entry) =~= driver.entries().take(at) + seq![entry]
        + driver.entries().skip(at));
}

/// Each entry gives its own waker, in the order of the entries.
pub proof fn law_each_entry_gives_its_waker<W>(entries: Seq<TimerEntry<W>>)
    ensures
        wakers_of(entries).len() == entries.len(),
        forall|i: int|
            0 <= i < entries.len() ==> #[trigger] wakers_of(entries)[i] == entries[i].waker,
{
}

/// A timer that was scheduled is woken by the first processing at or after its
/// deadline, and by none before: it is among those that are due from then on.
pub proof fn law_timer_is_woken_when_due<W>(
    driver: TimeDriver<W>,
    entry: TimerEntry<W>,
    now: u128,
)
    requires
        driver.wf(),
    ensures
        ({
            let at = count_due(driver.entries(), entry.deadline) as int;
            let entries = driver.entries().insert(at, entry);
            &&& entries[at] == entry
            &&& at < count_due(entries, now) <==> entry.deadline <= now
        }),
{
    let at = count_due(driver.entries(), entry.deadline) as int;
    lemma_due_is_prefix(driver.entries(), entry.deadline);
    let entries = driver.entries().insert(at, entry);
    assert(by_deadline(entries));
    lemma_due_is_prefix(entries, now);
    assert(entries[at] == entry);
}

/// The next deadline is the earliest of all.
pub proof fn law_next_deadline_is_the_earliest<W>(driver: TimeDriver<W>)
    requires
        driver.wf(),
        driver.entries().len() > 0,
    ensures
        forall|i: int|
            0 <= i < driver.entries().len() ==> driver.entries()[0].deadline <= (
            #[trigger] driver.entries()[i]).deadline,
{
}

} // verus!

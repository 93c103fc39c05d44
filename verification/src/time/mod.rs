//! Sleeping tasks.

use crate::runtime::timer::{by_deadline, count_due, lemma_due_is_prefix, TimerEntry};
use crate::task::Poll;
use vstd::prelude::*;

verus! {

/// The timers of sleeping tasks, and the waker of the thread that drives them.
pub struct TimeDriver<W> {
    pub timers: crate::runtime::timer::TimeDriver<W>,
    pub waker: Option<W>,
}

impl<W> TimeDriver<W> {
    /// The timers stand in order.
    pub open spec fn wf(self) -> bool {
        self.timers.wf()
    }

    /// No timers, and nobody to drive them.
    pub fn new() -> (r: Self)
        ensures
            r.wf(),
            r.timers.entries() == Seq::<TimerEntry<W>>::empty(),
            r.waker is None,
    {
        TimeDriver { timers: crate::runtime::timer::TimeDriver::new(), waker: None }
    }

    /// Sleep for a while, from now on.
    pub fn sleep(&self, now: u128, duration: u128) -> (r: Sleep)
        requires
            now + duration <= u128::MAX,
        ensures
            r == (Sleep { deadline: (now + duration) as u128, registered: false }),
    {
        Sleep { deadline: now + duration, registered: false }
    }
}

/// What polling a sleep gives at this time.
pub open spec fn sleep_result(sleep: Sleep, now: u128) -> Poll<()> {
    if now >= sleep.deadline {
        Poll::Ready(())
    } else {
        Poll::Pending
    }
}

/// A sleep is pending before its deadline, and ready from then on: it is ready at every
/// time at which its timer has come due, and at none before.
pub proof fn law_sleep_is_ready_when_due<W>(sleep: Sleep, waker: W, now: u128, later: u128)
    requires
        now <= later,
    ensures
        sleep_result(sleep, now) is Ready <==> sleep.deadline <= now,
        sleep_result(sleep, now) is Ready ==> sleep_result(sleep, later) is Ready,
        sleep_result(sleep, now) is Ready <==> count_due(
            seq![TimerEntry { deadline: sleep.deadline, waker }],
            now,
        ) == 1,
{
    let timers = seq![TimerEntry { deadline: sleep.deadline, waker }];
    assert(count_due(timers.drop_first(), now) == 0);
}

/// A sleep and the timers after the sleep was polled at this time with this waker.
pub open spec fn sleep_polled<W>(
    sleep: Sleep,
    timers: Seq<TimerEntry<W>>,
    now: u128,
    waker: W,
) -> (Sleep, Seq<TimerEntry<W>>) {
    if now >= sleep.deadline || sleep.registered {
        (sleep, timers)
    } else {
        (
            Sleep { registered: true, ..sleep },
            timers.insert(
                count_due(timers, sleep.deadline) as int,
                TimerEntry { deadline: sleep.deadline, waker },
            ),
        )
    }
}

/// A sleep and the timers after a sequence of polls, each at a time and with a waker.
pub open spec fn sleep_polled_all<W>(
    sleep: Sleep,
    timers: Seq<TimerEntry<W>>,
    polls: Seq<(u128, W)>,
) -> (Sleep, Seq<TimerEntry<W>>)
    decreases polls.len(),
{
    if polls.len() == 0 {
        (sleep, timers)
    } else {
        let before = sleep_polled_all(sleep, timers, polls.drop_last());
        sleep_polled(before.0, before.1, polls.last().0, polls.last().1)
    }
}

/// The waker of the first poll before the deadline.
pub open spec fn first_pending<W>(deadline: u128, polls: Seq<(u128, W)>) -> Option<W>
    decreases polls.len(),
{
    if polls.len() == 0 {
        None
    } else {
        match first_pending(deadline, polls.drop_last()) {
            Some(waker) => Some(waker),
            None => if polls.last().0 < deadline {
                Some(polls.last().1)
            } else {
                None
            },
        }
    }
}

/// A poll at or after the deadline, or once there is a timer, changes nothing. The first
/// one before the deadline leaves one more timer, with the deadline of the sleep and the
/// waker of the poll, and moves no other.
pub proof fn law_sleep_registers_before_its_deadline<W>(
    sleep: Sleep,
    timers: Seq<TimerEntry<W>>,
    now: u128,
    waker: W,
)
    requires
        by_deadline(timers),
    ensures
        now >= sleep.deadline || sleep.registered ==> sleep_polled(sleep, timers, now, waker) == (
            sleep,
            timers,
        ),
        now < sleep.deadline && !sleep.registered ==> {
            let after = sleep_polled(sleep, timers, now, waker);
            &&& after.0.registered
            &&& after.0.deadline == sleep.deadline
            &&& exists|at: int|
                {
                    &&& 0 <= at <= timers.len()
                    &&& after.1 == #[trigger] timers.insert(
                        at,
                        TimerEntry { deadline: sleep.deadline, waker },
                    )
                    &&& forall|i: int| 0 <= i < at ==> (#[trigger] timers[i]).deadline
                        <= sleep.deadline
                    &&& forall|i: int|
                        at <= i < timers.len() ==> (#[trigger] timers[i]).deadline > sleep.deadline
                }
        },
{
    if now < sleep.deadline && !sleep.registered {
        lemma_due_is_prefix(timers, sleep.deadline);
        let at = count_due(timers, sleep.deadline) as int;
        let entry = TimerEntry { deadline: sleep.deadline, waker };
        assert(sleep_polled(sleep, timers, now, waker).1 == timers.insert(at, entry));
    }
}

/// The waker of the first poll before the deadline is the one whose poll comes before the
/// deadline while none earlier does; there is none if no poll does.
pub proof fn law_first_pending_poll<W>(deadline: u128, polls: Seq<(u128, W)>, first: int)
    requires
        0 <= first <= polls.len(),
        first < polls.len() ==> polls[first].0 < deadline,
        forall|i: int| 0 <= i < first ==> (#[trigger] polls[i]).0 >= deadline,
    ensures
        first < polls.len() ==> first_pending(deadline, polls) == Some(polls[first].1),
        first == polls.len() ==> first_pending(deadline, polls) is None,
    decreases polls.len(),
{
    if polls.len() > 0 {
        let before = polls.drop_last();
        let upto = if first < before.len() {
            first
        } else {
            before.len() as int
        };
        assert forall|i: int| 0 <= i < upto implies (#[trigger] before[i]).0 >= deadline by {
            assert(before[i] == polls[i]);
        }
        law_first_pending_poll(deadline, before, upto);
        if first == polls.len() {
            assert(polls[polls.len() - 1].0 >= deadline);
        }
    }
}

/// However often a sleep is polled, there is one timer for it, with its deadline
/// and the waker of the first poll that was pending; and none if no poll was.
pub proof fn law_sleep_has_one_timer<W>(
    deadline: u128,
    timers: Seq<TimerEntry<W>>,
    polls: Seq<(u128, W)>,
)
    ensures
        sleep_polled_all(Sleep { deadline, registered: false }, timers, polls) == (
        match first_pending(deadline, polls) {
            Some(waker) => (
                Sleep { deadline, registered: true },
                timers.insert(
                    count_due(timers, deadline) as int,
                    TimerEntry { deadline, waker },
                ),
            ),
            None => (Sleep { deadline, registered: false }, timers),
        }),
    decreases polls.len(),
{
    if polls.len() > 0 {
        law_sleep_has_one_timer(deadline, timers, polls.drop_last());
    }
}

/// A future that is ready when its deadline has come.
#[derive(Debug, Clone, Copy, PartialEq, Eq, Structural)]
pub struct Sleep {
    pub deadline: u128,
    /// Whether there is a timer for it.
    pub registered: bool,
}

impl Sleep {
    /// Poll: ready once the deadline has come. The first poll that is pending
    /// leaves a timer with `waker`, and takes the waker of the driving thread,
    /// which comes back to be woken.
    pub fn poll<W>(&mut self, driver: &mut TimeDriver<W>, now: u128, waker: W) -> (r: (
        Poll<()>,
        Option<W>,
    ))
        requires
            old(driver).wf(),
        ensures
            final(driver).wf(),
            r.0 == sleep_result(*old(self), now),
            r.0 is Ready <==> now >= old(self).deadline,
            (*final(self), final(driver).timers.entries()) == sleep_polled(
                *old(self),
                old(driver).timers.entries(),
                now,
                waker,
            ),
            now >= old(self).deadline || old(self).registered ==> {
                &&& r.1 is None
                &&& *final(driver) == *old(driver)
            },
            now < old(self).deadline && !old(self).registered ==> {
                &&& r.1 == old(driver).waker
                &&& final(driver).waker is None
            },
    {
        if now >= self.deadline {
            return (Poll::Ready(()), None);
        }
        let mut wake: Option<W> = None;
        if !self.registered {
            driver.timers.schedule(self.deadline, waker);
            wake = driver.waker.take();
            self.registered = true;
        }
        (Poll::Pending, wake)
    }
}

} // verus!

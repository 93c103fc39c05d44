//! Thread parkers.
//!
//! A parker here is the state that decides; the caller performs each
//! [`ParkStep`] and reports back. Durations and points in time are in
//! nanoseconds.

use crate::runtime::io::IoDriver;
use crate::runtime::timer::{TimeDriver, TimerEntry};
use crate::task::waker::{Waker, WakerVtable};
use vstd::prelude::*;

verus! {

/// What a thread that parks has to do next.
#[derive(Debug, Clone, Copy, PartialEq, Eq, Structural)]
pub enum ParkStep {
    /// Parking is over.
    Return,
    /// Wait to be notified, for at most this long if there is a limit, and then
    /// tell the parker with `after_wait`.
    Wait(Option<u128>),
    /// Another thread is parked here: park again.
    Retry,
    /// Park the thread, and then park here again.
    ParkThread,
    /// Park the thread for at most this long; then parking is over.
    ParkThreadTimeout(u128),
    /// Yield the thread, and then park here again.
    Yield,
}

/// What a thread that unparks another has to do.
#[derive(Debug, Clone, Copy, PartialEq, Eq, Structural)]
pub enum UnparkStep {
    /// Nothing.
    Nothing,
    /// Notify the thread that waits.
    Notify,
    /// Unpark the thread with this number.
    Unpark(u64),
}

/// How a wait came to its end.
#[derive(Debug, Clone, Copy, PartialEq, Eq, Structural)]
pub enum WakeReason {
    /// The thread was unparked.
    Notified,
    /// The time was over, or the thread woke up by itself.
    TimedOut,
}

/// A thread parking primitive.
pub trait Park: Sized {
    /// The parker after one step of parking by the thread with this number, and
    /// the step. There is a time limit or there is none; `elapsed` is how long this
    /// parking has lasted.
    spec fn parks(self, thread: u64, limit: Option<u128>, elapsed: u128) -> (Self, ParkStep);

    /// The parker after it was unparked, and the step.
    spec fn unparks(self) -> (Self, UnparkStep);

    /// Park the current thread, which has this number.
    fn park(&mut self, thread: u64) -> (step: ParkStep)
        ensures
            (*final(self), step) == old(self).parks(thread, None, 0),
    ;

    /// Park with a timeout; `elapsed` is how long this parking has lasted.
    fn park_timeout(&mut self, thread: u64, duration: u128, elapsed: u128) -> (step: ParkStep)
        ensures
            (*final(self), step) == old(self).parks(thread, Some(duration), elapsed),
    ;

    /// Unpark the thread.
    fn unpark(&mut self) -> (step: UnparkStep)
        ensures
            (*final(self), step) == old(self).unparks(),
    ;
}

/// The three states of a thread parker.
#[derive(Debug, Clone, Copy, PartialEq, Eq, Structural)]
pub enum ParkState {
    /// Nobody is parked, and there is no notification.
    Empty,
    /// A thread is parked.
    Parked,
    /// There is a notification, which the next thread that parks takes.
    Notified,
}

impl ParkState {
    /// The state after a thread began to park.
    pub open spec fn after_park(self) -> Self {
        match self {
            ParkState::Notified => ParkState::Empty,
            ParkState::Empty => ParkState::Parked,
            ParkState::Parked => ParkState::Parked,
        }
    }

    /// What a thread that begins to park has to do.
    pub open spec fn park_step(self, limit: Option<u128>) -> ParkStep {
        match self {
            ParkState::Notified => ParkStep::Return,
            ParkState::Empty => ParkStep::Wait(limit),
            ParkState::Parked => ParkStep::Retry,
        }
    }

    /// What a thread that unparks has to do.
    pub open spec fn unpark_step(self) -> UnparkStep {
        if self is Parked {
            UnparkStep::Notify
        } else {
            UnparkStep::Nothing
        }
    }

    /// Why a wait came to its end.
    pub open spec fn wake_reason(self) -> WakeReason {
        if self is Notified {
            WakeReason::Notified
        } else {
            WakeReason::TimedOut
        }
    }
}

/// An attempt to exchange the state of a parker: put `new` in the place of
/// `expected`.
#[derive(Debug, Clone, Copy, PartialEq, Eq, Structural)]
pub struct ParkAttempt {
    pub expected: ParkState,
    pub new: ParkState,
}

/// Where an attempt has led.
#[derive(Debug, Clone, Copy, PartialEq, Eq, Structural)]
pub enum ParkProgress {
    /// The exchange was made.
    Done(ParkStep),
    /// Another state was found: try again from there.
    Again(ParkState),
}

impl ParkState {
    /// The exchange that a thread tries when it parks and has seen this state: take
    /// the notification if there is one, and else announce itself.
    pub open spec fn attempt(self) -> ParkAttempt {
        if self is Notified {
            ParkAttempt { expected: ParkState::Notified, new: ParkState::Empty }
        } else {
            ParkAttempt { expected: ParkState::Empty, new: ParkState::Parked }
        }
    }

    /// The state after an exchange was tried.
    pub open spec fn exchanged(self, attempt: ParkAttempt) -> ParkState {
        if self == attempt.expected {
            attempt.new
        } else {
            self
        }
    }

    /// What trying an exchange finds, as success or as failure.
    pub open spec fn found(self, attempt: ParkAttempt) -> Result<ParkState, ParkState> {
        if self == attempt.expected {
            Ok(self)
        } else {
            Err(self)
        }
    }

    /// The exchange to try when a thread parks and has seen this state.
    pub fn park_attempt(self) -> (attempt: ParkAttempt)
        ensures
            attempt == self.attempt(),
    {
        match self {
            ParkState::Notified => ParkAttempt {
                expected: ParkState::Notified,
                new: ParkState::Empty,
            },
            _ => ParkAttempt { expected: ParkState::Empty, new: ParkState::Parked },
        }
    }

    /// Exchange the state if it is the expected one. Returns the state that
    /// was found, as success or as failure.
    pub fn compare_exchange(&mut self, attempt: ParkAttempt) -> (found: Result<
        ParkState,
        ParkState,
    >)
        ensures
            *final(self) == old(self).exchanged(attempt),
            found == old(self).found(attempt),
    {
        let state = *self;
        if state == attempt.expected {
            *self = attempt.new;
            Ok(state)
        } else {
            Err(state)
        }
    }
}

impl ParkAttempt {
    /// Where the attempt has led, when this was found.
    pub open spec fn progress(
        self,
        found: Result<ParkState, ParkState>,
        limit: Option<u128>,
    ) -> ParkProgress {
        match found {
            Err(state) => ParkProgress::Again(state),
            Ok(_) => ParkProgress::Done(
                if self.expected is Notified {
                    ParkStep::Return
                } else {
                    ParkStep::Wait(limit)
                },
            ),
        }
    }

    /// Go on after the exchange was tried.
    pub fn settle(self, found: Result<ParkState, ParkState>, limit: Option<u128>) -> (progress:
        ParkProgress)
        ensures
            progress == self.progress(found, limit),
    {
        match found {
            Err(state) => ParkProgress::Again(state),
            Ok(_) => match self.expected {
                ParkState::Notified => ParkProgress::Done(ParkStep::Return),
                _ => ParkProgress::Done(ParkStep::Wait(limit)),
            },
        }
    }
}

/// Begin to park: look at the state, try the exchange, and go on from there.
pub fn begin_park(state: &mut ParkState, limit: Option<u128>) -> (step: ParkStep)
    ensures
        *final(state) == old(state).after_park(),
        step == old(state).park_step(limit),
{
    let attempt = state.park_attempt();
    let found = state.compare_exchange(attempt);
    match attempt.settle(found, limit) {
        ParkProgress::Done(step) => step,
        ParkProgress::Again(_) => ParkStep::Retry,
    }
}

/// End a wait: the state becomes empty.
pub fn end_wait(state: &mut ParkState) -> (reason: WakeReason)
    requires
        !(*old(state) is Empty),
    ensures
        *final(state) is Empty,
        reason == old(state).wake_reason(),
{
    let found = *state;
    *state = ParkState::Empty;
    match found {
        ParkState::Notified => WakeReason::Notified,
        _ => WakeReason::TimedOut,
    }
}

/// Leave a notification.
pub fn notify(state: &mut ParkState) -> (step: UnparkStep)
    ensures
        *final(state) is Notified,
        step == old(state).unpark_step(),
{
    let found = *state;
    *state = ParkState::Notified;
    if let ParkState::Parked = found {
        UnparkStep::Notify
    } else {
        UnparkStep::Nothing
    }
}

/// About a year, in nanoseconds.
pub const YEAR: u128 = 31_536_000_000_000_000;

/// Thread parker that waits on a condition variable.
pub struct ThreadPark {
    /// The number by which wakers know the parker.
    pub id: u64,
    pub state: ParkState,
}

impl ThreadPark {
    /// Create a new thread parker.
    pub fn new(id: u64) -> (r: Self)
        ensures
            r == (ThreadPark { id, state: ParkState::Empty }),
    {
        ThreadPark { id, state: ParkState::Empty }
    }

    /// Get a waker for this parker.
    pub fn waker(&self) -> (r: ThreadWaker)
        ensures
            r == (ThreadWaker { inner: self.id }),
    {
        ThreadWaker { inner: self.id }
    }

    /// The parker after a thread began to park, and the step: without a limit it
    /// waits for about a year.
    pub open spec fn waits(self, limit: Option<u128>) -> (Self, ParkStep) {
        let limit = if limit is Some {
            limit
        } else {
            Some(YEAR)
        };
        (ThreadPark { state: self.state.after_park(), ..self }, self.state.park_step(limit))
    }

    /// Begin to park, with a limit or without.
    pub fn wait(&mut self, limit: Option<u128>) -> (step: ParkStep)
        ensures
            (*final(self), step) == old(self).waits(limit),
    {
        let limit: u128 = match limit {
            Some(limit) => limit,
            None => YEAR,
        };
        begin_park(&mut self.state, Some(limit))
    }

    /// The wait of a parked thread is over.
    pub fn after_wait(&mut self) -> (reason: WakeReason)
        requires
            !(old(self).state is Empty),
        ensures
            *final(self) == (ThreadPark { state: ParkState::Empty, ..*old(self) }),
            reason == old(self).state.wake_reason(),
    {
        end_wait(&mut self.state)
    }
}

impl Park for ThreadPark {
    open spec fn parks(self, thread: u64, limit: Option<u128>, elapsed: u128) -> (Self, ParkStep) {
        self.waits(limit)
    }

    open spec fn unparks(self) -> (Self, UnparkStep) {
        (ThreadPark { state: ParkState::Notified, ..self }, self.state.unpark_step())
    }

    fn park(&mut self, thread: u64) -> (step: ParkStep) {
        self.wait(None)
    }

    fn park_timeout(&mut self, thread: u64, duration: u128, elapsed: u128) -> (step: ParkStep) {
        self.wait(Some(duration))
    }

    fn unpark(&mut self) -> (step: UnparkStep) {
        notify(&mut self.state)
    }
}

/// Waker for a thread parker.
#[derive(Debug, Clone, Copy, PartialEq, Eq, Structural)]
pub struct ThreadWaker {
    /// The number of the parker.
    pub inner: u64,
}

impl ThreadWaker {
    /// Convert to a waker.
    pub fn into_waker(self) -> (r: Waker)
        ensures
            r == (Waker { data: self.inner, vtable: WakerVtable::ThreadPark }),
    {
        Waker { data: self.inner, vtable: WakerVtable::ThreadPark }
    }

    /// Wake: unpark the parker.
    pub fn wake(self, parker: &mut ThreadPark) -> (step: UnparkStep)
        requires
            old(parker).id == self.inner,
        ensures
            (*final(parker), step) == old(parker).unparks(),
    {
        parker.unpark()
    }

    /// Wake by reference: the same as [`ThreadWaker::wake`].
    pub fn wake_by_ref(&self, parker: &mut ThreadPark) -> (step: UnparkStep)
        requires
            old(parker).id == self.inner,
        ensures
            (*final(parker), step) == old(parker).unparks(),
    {
        parker.unpark()
    }
}

/// Parking by a thread parker of one's own.
pub struct ParkThread {
    pub parker: ThreadPark,
}

impl ParkThread {
    /// Create a new thread parker.
    pub fn new(id: u64) -> (r: Self)
        ensures
            r.parker == (ThreadPark { id, state: ParkState::Empty }),
    {
        ParkThread { parker: ThreadPark::new(id) }
    }

    /// Get the waker for this parker.
    pub fn waker(&self) -> (r: Waker)
        ensures
            r == (Waker { data: self.parker.id, vtable: WakerVtable::ThreadPark }),
    {
        self.parker.waker().into_waker()
    }

    /// Park the thread.
    pub fn park(&mut self) -> (step: ParkStep)
        ensures
            (final(self).parker, step) == old(self).parker.waits(None),
    {
        self.parker.wait(None)
    }

    /// Park with timeout.
    pub fn park_timeout(&mut self, duration: u128) -> (step: ParkStep)
        ensures
            (final(self).parker, step) == old(self).parker.waits(Some(duration)),
    {
        self.parker.wait(Some(duration))
    }

    /// Unpark the thread.
    pub fn unpark(&mut self) -> (step: UnparkStep)
        ensures
            (final(self).parker, step) == old(self).parker.unparks(),
    {
        self.parker.unpark()
    }
}

/// A parker that parks the thread itself.
pub struct SleepPark {
    /// The number by which wakers know the parker.
    pub id: u64,
    /// Whether there is a notification.
    pub state: bool,
    /// The thread that was parked here last.
    pub thread: Option<u64>,
}

impl SleepPark {
    /// Create a new sleep parker.
    pub fn new(id: u64) -> (r: Self)
        ensures
            r == (SleepPark { id, state: false, thread: None }),
    {
        SleepPark { id, state: false, thread: None }
    }

    /// Get a waker for this parker.
    pub fn waker(&self) -> (r: SleepWaker)
        ensures
            r == (SleepWaker { inner: self.id }),
    {
        SleepWaker { inner: self.id }
    }
}

impl Park for SleepPark {
    open spec fn parks(self, thread: u64, limit: Option<u128>, elapsed: u128) -> (Self, ParkStep) {
        if self.state {
            (SleepPark { state: false, ..self }, ParkStep::Return)
        } else {
            (
                SleepPark { thread: Some(thread), ..self },
                match limit {
                    Some(duration) => ParkStep::ParkThreadTimeout(duration),
                    None => ParkStep::ParkThread,
                },
            )
        }
    }

    open spec fn unparks(self) -> (Self, UnparkStep) {
        (
            SleepPark { state: true, ..self },
            match self.thread {
                Some(thread) => if self.state {
                    UnparkStep::Nothing
                } else {
                    UnparkStep::Unpark(thread)
                },
                None => UnparkStep::Nothing,
            },
        )
    }

    fn park(&mut self, thread: u64) -> (step: ParkStep) {
        let notified = self.state;
        self.state = false;
        if !notified {
            self.thread = Some(thread);
            ParkStep::ParkThread
        } else {
            ParkStep::Return
        }
    }

    fn park_timeout(&mut self, thread: u64, duration: u128, elapsed: u128) -> (step: ParkStep) {
        let notified = self.state;
        self.state = false;
        if !notified {
            self.thread = Some(thread);
            ParkStep::ParkThreadTimeout(duration)
        } else {
            ParkStep::Return
        }
    }

    fn unpark(&mut self) -> (step: UnparkStep) {
        let notified = self.state;
        self.state = true;
        match self.thread {
            Some(thread) => if !notified {
                UnparkStep::Unpark(thread)
            } else {
                UnparkStep::Nothing
            },
            None => UnparkStep::Nothing,
        }
    }
}

/// Waker for a sleep parker.
#[derive(Debug, Clone, Copy, PartialEq, Eq, Structural)]
pub struct SleepWaker {
    /// The number of the parker.
    pub inner: u64,
}

impl SleepWaker {
    /// Convert to a waker.
    pub fn into_waker(self) -> (r: Waker)
        ensures
            r == (Waker { data: self.inner, vtable: WakerVtable::SleepPark }),
    {
        Waker { data: self.inner, vtable: WakerVtable::SleepPark }
    }

    /// Wake: unpark the parker.
    pub fn wake(self, parker: &mut SleepPark) -> (step: UnparkStep)
        requires
            old(parker).id == self.inner,
        ensures
            (*final(parker), step) == old(parker).unparks(),
    {
        parker.unpark()
    }

    /// Wake by reference: the same as [`SleepWaker::wake`].
    pub fn wake_by_ref(&self, parker: &mut SleepPark) -> (step: UnparkStep)
        requires
            old(parker).id == self.inner,
        ensures
            (*final(parker), step) == old(parker).unparks(),
    {
        parker.unpark()
    }
}

/// A parker that yields instead of parking.
pub struct YieldPark {
    /// The number by which wakers know the parker.
    pub id: u64,
    /// Whether a thread that parks has to stay.
    pub should_park: bool,
}

impl YieldPark {
    /// Create a new yield parker.
    pub fn new(id: u64) -> (r: Self)
        ensures
            r == (YieldPark { id, should_park: false }),
    {
        YieldPark { id, should_park: false }
    }

    /// Get a waker for this parker.
    pub fn waker(&self) -> (r: YieldWaker)
        ensures
            r == (YieldWaker { inner: self.id }),
    {
        YieldWaker { inner: self.id }
    }
}

impl Park for YieldPark {
    open spec fn parks(self, thread: u64, limit: Option<u128>, elapsed: u128) -> (Self, ParkStep) {
        (
            self,
            if self.should_park && (limit is None || elapsed < limit->0) {
                ParkStep::Yield
            } else {
                ParkStep::Return
            },
        )
    }

    open spec fn unparks(self) -> (Self, UnparkStep) {
        (YieldPark { should_park: false, ..self }, UnparkStep::Nothing)
    }

    fn park(&mut self, thread: u64) -> (step: ParkStep) {
        if self.should_park {
            ParkStep::Yield
        } else {
            ParkStep::Return
        }
    }

    fn park_timeout(&mut self, thread: u64, duration: u128, elapsed: u128) -> (step: ParkStep) {
        if self.should_park {
            if elapsed >= duration {
                ParkStep::Return
            } else {
                ParkStep::Yield
            }
        } else {
            ParkStep::Return
        }
    }

    fn unpark(&mut self) -> (step: UnparkStep) {
        self.should_park = false;
        UnparkStep::Nothing
    }
}

/// Waker for a yield parker.
#[derive(Debug, Clone, Copy, PartialEq, Eq, Structural)]
pub struct YieldWaker {
    /// The number of the parker.
    pub inner: u64,
}

impl YieldWaker {
    /// Convert to a waker.
    pub fn into_waker(self) -> (r: Waker)
        ensures
            r == (Waker { data: self.inner, vtable: WakerVtable::YieldPark }),
    {
        Waker { data: self.inner, vtable: WakerVtable::YieldPark }
    }

    /// Wake: unpark the parker.
    pub fn wake(self, parker: &mut YieldPark) -> (step: UnparkStep)
        requires
            old(parker).id == self.inner,
        ensures
            (*final(parker), step) == old(parker).unparks(),
    {
        parker.unpark()
    }

    /// Wake by reference: the same as [`YieldWaker::wake`].
    pub fn wake_by_ref(&self, parker: &mut YieldPark) -> (step: UnparkStep)
        requires
            old(parker).id == self.inner,
        ensures
            (*final(parker), step) == old(parker).unparks(),
    {
        parker.unpark()
    }
}

/// How long a thread may stay parked, given the deadline of the next timer, the
/// present time and a timeout: until the deadline if that is to come and comes
/// before the timeout, and else for the timeout. A deadline that has passed
/// does not count.
pub open spec fn park_limit(
    next_deadline: Option<u128>,
    now: u128,
    timeout: Option<u128>,
) -> Option<u128> {
    match next_deadline {
        Some(deadline) => if deadline > now && (timeout is None || deadline - now < timeout->0) {
            Some((deadline - now) as u128)
        } else {
            timeout
        },
        None => timeout,
    }
}

/// Combined parker with I/O and timer support.
pub struct Parker<W> {
    pub parker: ThreadPark,
    pub io_driver: Option<IoDriver>,
    pub time_driver: Option<TimeDriver<W>>,
}

impl<W> Parker<W> {
    /// The timers stand in order.
    pub open spec fn wf(self) -> bool {
        self.time_driver is Some ==> self.time_driver->0.wf()
    }

    /// The deadline of the next timer.
    pub open spec fn next_deadline(self) -> Option<u128> {
        match self.time_driver {
            Some(driver) => if driver.entries().len() == 0 {
                None
            } else {
                Some(driver.entries()[0].deadline)
            },
            None => None,
        }
    }

    /// Create a new parker with I/O support.
    pub fn new_with_io(id: u64) -> (r: Self)
        ensures
            r.wf(),
            r.parker == (ThreadPark { id, state: ParkState::Empty }),
            r.io_driver is Some,
            r.io_driver->0.wakers() == Map::<usize, u64>::empty(),
            r.time_driver is Some,
            r.time_driver->0.entries() == Seq::<TimerEntry<W>>::empty(),
    {
        Parker {
            parker: ThreadPark::new(id),
            io_driver: Some(IoDriver::new()),
            time_driver: Some(TimeDriver::new()),
        }
    }

    /// Create a new parker without I/O support.
    pub fn new(id: u64) -> (r: Self)
        ensures
            r.wf(),
            r.parker == (ThreadPark { id, state: ParkState::Empty }),
            r.io_driver is None,
            r.time_driver is None,
    {
        Parker { parker: ThreadPark::new(id), io_driver: None, time_driver: None }
    }

    /// Park the current thread.
    pub fn park(&mut self, now: u128) -> (step: ParkStep)
        requires
            old(self).wf(),
        ensures
            (final(self).parker, step) == old(self).parker.waits(
                park_limit(old(self).next_deadline(), now, None),
            ),
            final(self).io_driver == old(self).io_driver,
            final(self).time_driver == old(self).time_driver,
    {
        self.park_timeout(None, now)
    }

    /// Park with an optional timeout.
    pub fn park_timeout(&mut self, timeout: Option<u128>, now: u128) -> (step: ParkStep)
        requires
            old(self).wf(),
        ensures
            (final(self).parker, step) == old(self).parker.waits(
                park_limit(old(self).next_deadline(), now, timeout),
            ),
            final(self).io_driver == old(self).io_driver,
            final(self).time_driver == old(self).time_driver,
    {
        if let Some(time_driver) = &self.time_driver {
            if let Some(deadline) = time_driver.next_deadline() {
                if deadline > now {
                    let duration: u128 = deadline - now;
                    if let Some(timeout) = timeout {
                        if duration < timeout {
                            return self.parker.wait(Some(duration));
                        }
                    } else {
                        return self.parker.wait(Some(duration));
                    }
                }
            }
        }
        self.parker.wait(timeout)
    }

    /// Unpark the thread.
    pub fn unpark(&mut self) -> (step: UnparkStep)
        ensures
            (final(self).parker, step) == old(self).parker.unparks(),
            final(self).io_driver == old(self).io_driver,
            final(self).time_driver == old(self).time_driver,
    {
        self.parker.unpark()
    }

    /// Get the I/O driver.
    pub fn io_driver(&self) -> (r: Option<&IoDriver>)
        ensures
            r is Some <==> self.io_driver is Some,
            r is Some ==> *r->0 == self.io_driver->0,
    {
        self.io_driver.as_ref()
    }

    /// Get the time driver.
    pub fn time_driver(&self) -> (r: Option<&TimeDriver<W>>)
        ensures
            r is Some <==> self.time_driver is Some,
            r is Some ==> *r->0 == self.time_driver->0,
    {
        self.time_driver.as_ref()
    }
}

/// A thread is not parked past its timeout, nor past the next deadline if that
/// is still to come.
pub proof fn law_parker_does_not_oversleep(
    next_deadline: Option<u128>,
    now: u128,
    timeout: Option<u128>,
)
    ensures
        timeout is Some ==> park_limit(next_deadline, now, timeout) is Some && park_limit(
            next_deadline,
            now,
            timeout,
        )->0 <= timeout->0,
        next_deadline is Some && next_deadline->0 > now ==> park_limit(
            next_deadline,
            now,
            timeout,
        ) is Some && now + park_limit(next_deadline, now, timeout)->0 <= next_deadline->0,
{
}

/// How long a thread may stay parked is the shorter of its timeout and the time to the
/// next deadline, if that is still to come; and there is no limit only without both.
pub proof fn law_park_limit_is_the_shorter(
    next_deadline: Option<u128>,
    now: u128,
    timeout: Option<u128>,
)
    ensures
        ({
            let limit = park_limit(next_deadline, now, timeout);
            let comes = next_deadline is Some && next_deadline->0 > now;
            &&& limit is None <==> timeout is None && !comes
            &&& limit is Some ==> limit == timeout || (comes && limit->0 == next_deadline->0 - now)
            &&& !comes ==> limit == timeout
            &&& timeout is Some ==> limit->0 <= timeout->0
            &&& comes ==> limit->0 <= next_deadline->0 - now
        }),
{
}

/// The next deadline of a parker is the earliest of its timers; it has none only without
/// timers.
pub proof fn law_next_deadline_of_a_parker<W>(parker: Parker<W>)
    requires
        parker.wf(),
    ensures
        parker.next_deadline() is None <==> parker.time_driver is None
            || parker.time_driver->0.entries().len() == 0,
        parker.next_deadline() is Some ==> {
            let entries = parker.time_driver->0.entries();
            &&& parker.next_deadline()->0 == entries[0].deadline
            &&& forall|i: int|
                0 <= i < entries.len() ==> parker.next_deadline()->0 <= (
                #[trigger] entries[i]).deadline
        },
{
}

/// A thread that parks where there is a notification takes it and returns; where nobody is
/// parked it waits, for as long as it was told; and where another is parked it has to
/// try again. Only a parked thread has to be notified, and it learns of it.
pub proof fn law_park_by_state(state: ParkState, limit: Option<u128>)
    ensures
        state is Notified <==> state.park_step(limit) is Return,
        state is Notified <==> state.after_park() is Empty,
        state is Empty <==> state.park_step(limit) == ParkStep::Wait(limit),
        state is Parked <==> state.park_step(limit) is Retry,
        !(state is Notified) <==> state.after_park() is Parked,
        state is Parked <==> state.unpark_step() is Notify,
        !(state is Parked) <==> state.unpark_step() is Nothing,
        state is Notified <==> state.wake_reason() is Notified,
{
}

/// A thread parker waits for its limit, or for a year without one; whichever it is, it
/// keeps its number; and after it was unparked there is a notification.
pub proof fn law_thread_park_waits(
    parker: ThreadPark,
    thread: u64,
    limit: Option<u128>,
    elapsed: u128,
)
    ensures
        parker.parks(thread, limit, elapsed) == parker.waits(limit),
        parker.waits(limit).0.id == parker.id,
        parker.state is Empty && limit is Some ==> parker.waits(limit).1 == ParkStep::Wait(limit),
        parker.state is Empty && limit is None ==> parker.waits(limit).1 == ParkStep::Wait(
            Some(31_536_000_000_000_000),
        ),
        parker.state is Notified ==> parker.waits(limit).1 is Return
            && parker.waits(limit).0.state is Empty,
        parker.state is Parked ==> parker.waits(limit).1 is Retry,
        !(parker.state is Notified) ==> parker.waits(limit).0.state is Parked,
        parker.unparks().0.id == parker.id,
        parker.unparks().0.state is Notified,
        parker.unparks().1 is Notify <==> parker.state is Parked,
        parker.unparks().1 is Nothing <==> !(parker.state is Parked),
{
}

/// A sleep parker with a notification takes it and returns; one without parks the thread,
/// for as long as it was told, and remembers it. Unparking leaves a notification, and
/// unparks the thread that was parked last exactly if there was none.
pub proof fn law_sleep_park_by_state(
    parker: SleepPark,
    thread: u64,
    limit: Option<u128>,
    elapsed: u128,
)
    ensures
        ({
            let (next, step) = parker.parks(thread, limit, elapsed);
            &&& next.id == parker.id
            &&& !next.state
            &&& parker.state ==> step is Return && next.thread == parker.thread
            &&& !parker.state ==> next.thread == Some(thread)
            &&& !parker.state && limit is Some ==> step == ParkStep::ParkThreadTimeout(limit->0)
            &&& !parker.state && limit is None ==> step is ParkThread
        }),
        ({
            let (next, step) = parker.unparks();
            &&& next.id == parker.id
            &&& next.state
            &&& next.thread == parker.thread
            &&& !parker.state && parker.thread is Some ==> step == UnparkStep::Unpark(
                parker.thread->0,
            )
            &&& parker.state || parker.thread is None ==> step is Nothing
        }),
{
}

/// A thread yields at a yield parker as long as it has to stay and its time is not over,
/// and else it goes on; that changes nothing of the parker.
pub proof fn law_yield_park_by_state(
    parker: YieldPark,
    thread: u64,
    limit: Option<u128>,
    elapsed: u128,
)
    ensures
        parker.parks(thread, limit, elapsed).0 == parker,
        parker.should_park && limit is None ==> parker.parks(thread, limit, elapsed).1 is Yield,
        parker.should_park && limit is Some && elapsed < limit->0 ==> parker.parks(
            thread,
            limit,
            elapsed,
        ).1 is Yield,
        !parker.should_park || (limit is Some && elapsed >= limit->0) ==> parker.parks(
            thread,
            limit,
            elapsed,
        ).1 is Return,
        !parker.unparks().0.should_park,
        parker.unparks().0.id == parker.id,
        parker.unparks().1 is Nothing,
{
}

/// However long a thread tries to park, and whatever others do to the state
/// meanwhile: an exchange that fails changes nothing, and the one that ends the
/// attempts takes the state, from what it then is, to what parking makes of it.
pub proof fn law_park_attempts_are_atomic(
    observed: ParkState,
    actual: ParkState,
    limit: Option<u128>,
)
    ensures
        match observed.attempt().progress(actual.found(observed.attempt()), limit) {
            ParkProgress::Done(step) => {
                &&& actual.exchanged(observed.attempt()) == actual.after_park()
                &&& step == actual.park_step(limit)
            },
            ParkProgress::Again(state) => {
                &&& actual.exchanged(observed.attempt()) == actual
                &&& state == actual
            },
        },
{
}

/// A notification that comes before a thread parks is not lost: the thread
/// that parks next returns at once, and takes the notification with it.
pub proof fn law_unpark_then_park(parker: ThreadPark, limit: Option<u128>)
    ensures
        parker.unparks().0.waits(limit) == (
            ThreadPark { state: ParkState::Empty, ..parker },
            ParkStep::Return,
        ),
{
}

/// Notifications do not add up: any number of them lets one thread through, and
/// the next one waits.
pub proof fn law_unparks_do_not_add_up(parker: ThreadPark, limit: Option<u128>)
    ensures
        parker.unparks().0.unparks() == (parker.unparks().0, UnparkStep::Nothing),
        parker.unparks().0.waits(limit).0.waits(limit).1 is Wait,
{
}

/// A notification that comes while a thread waits is told to it.
pub proof fn law_park_then_unpark(parker: ThreadPark, limit: Option<u128>)
    requires
        parker.state is Empty,
    ensures
        parker.waits(limit).1 is Wait,
        parker.waits(limit).0.unparks().1 is Notify,
        parker.waits(limit).0.unparks().0.state.wake_reason() is Notified,
{
}

/// A parker after it was unparked a number of times.
pub open spec fn unparked(parker: ThreadPark, times: nat) -> ThreadPark
    decreases times,
{
    if times == 0 {
        parker
    } else {
        unparked(parker, (times - 1) as nat).unparks().0
    }
}

/// While a thread waits, no number of notifications makes the state empty
/// under it: the end of the wait finds it parked or notified, and tells the two
/// apart.
pub proof fn law_wait_is_not_forgotten(parker: ThreadPark, times: nat)
    requires
        parker.state is Parked,
    ensures
        !(unparked(parker, times).state is Empty),
        unparked(parker, times).state.wake_reason() is Notified <==> times > 0,
    decreases times,
{
    if times > 0 {
        law_wait_is_not_forgotten(parker, (times - 1) as nat);
    }
}

/// A sleep parker, too, keeps one notification for the next thread that parks.
pub proof fn law_sleep_park_keeps_one_notification(
    parker: SleepPark,
    thread: u64,
    limit: Option<u128>,
    elapsed: u128,
)
    ensures
        parker.unparks().0.parks(thread, limit, elapsed).1 is Return,
        parker.unparks().0.unparks() == (parker.unparks().0, UnparkStep::Nothing),
        !(parker.unparks().0.parks(thread, limit, elapsed).0.parks(thread, limit, elapsed).1 is Return),
{
}

/// Unparking a sleep parker unparks the thread that is parked there.
pub proof fn law_sleep_park_unparks_the_parked_thread(
    parker: SleepPark,
    thread: u64,
    limit: Option<u128>,
    elapsed: u128,
)
    ensures
        !(parker.parks(thread, limit, elapsed).1 is Return) ==> parker.parks(
            thread,
            limit,
            elapsed,
        ).0.unparks().1 == UnparkStep::Unpark(thread),
{
}

/// Nobody stays with a yield parker that was unparked.
pub proof fn law_yield_park_lets_go(
    parker: YieldPark,
    thread: u64,
    limit: Option<u128>,
    elapsed: u128,
)
    ensures
        parker.unparks().0.parks(thread, limit, elapsed) == (parker.unparks().0, ParkStep::Return),
{
}

} // verus!

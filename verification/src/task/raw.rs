//! Task headers, the table that holds them, and the transitions of a header.

use crate::task::state::{
    aborted_bit, join_interest_bit, lemma_counted_word, panicked_bit, refcount_of, released,
    retained, state_of, with_state, TaskState,
};
use crate::task::waker::{clone_waker, drop_waker};
use std::collections::HashMap;
use std::marker::PhantomData;
use vstd::prelude::*;

verus! {

broadcast use vstd::std_specs::hash::group_hash_axioms;

/// What polling a future gave.
#[derive(Debug, PartialEq, Eq)]
pub enum Poll<T> {
    /// The future finished with this output.
    Ready(T),
    /// The future is still pending.
    Pending,
}

/// How a woken task finds its way back to a queue.
#[derive(Debug, Clone, Copy, PartialEq, Eq, Structural)]
pub struct SchedulerData {
    /// The runtime whose queue takes the task; `None` stands for whichever
    /// runtime is current on the waking thread.
    pub shared: Option<u64>,
    /// The thread that the task must run on, whatever runtime there is.
    pub thread: Option<u64>,
}

/// The header of a task: its state word and all that belongs to it.
///
/// `F` is the future, `T` its output and `W` the waker of a join handle.
pub struct Header<F, T, W> {
    /// State, flags and reference count.
    pub state: TaskState,
    /// How the task is scheduled when it is woken.
    pub scheduler: Option<SchedulerData>,
    /// The future, unless it is out being polled.
    pub future: Option<F>,
    /// The output, once there is one and until it is taken.
    pub output: Option<T>,
    /// The waker of the join handle.
    pub join_waker: Option<W>,
    /// Whether the task was woken while its future was being polled.
    pub woken: bool,
    /// Whether the join handle is gone.
    pub detached: bool,
    /// Whether the task was aborted before it completed.
    pub stopped: bool,
}

impl<F, T, W> Header<F, T, W> {
    /// Whether the task has completed.
    pub open spec fn complete(self) -> bool {
        state_of(self.state.bits) == TaskState::COMPLETE
    }

    /// Whether the task was aborted.
    pub open spec fn aborted(self) -> bool {
        aborted_bit(self.state.bits)
    }

    /// Whether the future of the task is being polled.
    pub open spec fn running(self) -> bool {
        state_of(self.state.bits) == TaskState::RUNNING
    }

    /// Whether the future of the task panicked.
    pub open spec fn panicked(self) -> bool {
        panicked_bit(self.state.bits)
    }

    /// Whether a join handle waits for the task.
    pub open spec fn join_interest(self) -> bool {
        join_interest_bit(self.state.bits)
    }

    /// This header with other state bits.
    pub open spec fn with_bits(self, bits: usize) -> Self {
        Header { state: TaskState { bits }, ..self }
    }

    /// This header after its task was aborted.
    pub open spec fn after_abort(self) -> Self {
        Header {
            state: TaskState { bits: self.state.bits | TaskState::ABORTED },
            join_waker: if self.join_interest() {
                None
            } else {
                self.join_waker
            },
            ..self
        }
    }

    /// The join waker that aborting wakes, or a panic.
    pub open spec fn abort_wakes(self) -> Option<W> {
        if self.join_interest() {
            self.join_waker
        } else {
            None
        }
    }

    /// This header after a join handle left its waker.
    pub open spec fn after_join(self, waker: W) -> Self {
        Header {
            state: TaskState { bits: self.state.bits | TaskState::JOIN_INTEREST },
            join_waker: Some(waker),
            ..self
        }
    }

    /// Whether there is an output that may be read: the task is complete, and was
    /// not aborted before.
    pub open spec fn readable(self) -> bool {
        self.complete() && !self.stopped
    }

    /// This header after its output was read.
    pub open spec fn after_read(self) -> Self {
        if self.readable() {
            Header { output: None, ..self }
        } else {
            self
        }
    }

    /// Whether the future may be polled: the task is idle or scheduled, and was
    /// not aborted.
    pub open spec fn startable(self) -> bool {
        !self.aborted() && !self.complete() && !self.running()
    }

    /// This header after its future was taken out for a poll. The waker of the
    /// poll has a reference.
    pub open spec fn after_start(self) -> Self {
        Header {
            state: TaskState { bits: with_state(retained(self.state.bits), TaskState::RUNNING) },
            future: None,
            woken: false,
            ..self
        }
    }

    /// Whether the end of a poll hands the task to its scheduler again: it was
    /// woken meanwhile.
    pub open spec fn poll_schedules(self, polled: Poll<T>) -> bool {
        polled is Pending && self.woken && !self.aborted()
    }

    /// The state word at the end of a poll, before references are given back.
    pub open spec fn polled_bits(self, polled: Poll<T>) -> usize {
        with_state(
            self.state.bits,
            if polled is Ready {
                TaskState::COMPLETE
            } else if self.poll_schedules(polled) {
                TaskState::SCHEDULED
            } else {
                TaskState::IDLE
            },
        )
    }

    /// This header after its future was polled.
    pub open spec fn after_poll(self, future: F, polled: Poll<T>) -> Self {
        Header {
            state: TaskState { bits: given_back(self.polled_bits(polled), self.detached) },
            future: Some(future),
            output: match polled {
                Poll::Ready(output) => Some(output),
                Poll::Pending => self.output,
            },
            join_waker: if polled is Ready && self.join_interest() {
                None
            } else {
                self.join_waker
            },
            woken: false,
            stopped: if polled is Ready {
                self.aborted()
            } else {
                self.stopped
            },
            ..self
        }
    }

    /// The join waker that the end of a poll wakes.
    pub open spec fn poll_wakes(self, polled: Poll<T>) -> Option<W> {
        if polled is Ready && self.join_interest() {
            self.join_waker
        } else {
            None
        }
    }

    /// Whether the end of a poll gives back the last reference of a completed task.
    pub open spec fn poll_frees(self, polled: Poll<T>) -> bool {
        gives_last(self.polled_bits(polled), self.detached)
    }

    /// The state word when a poll panicked, before references are given back.
    pub open spec fn panicked_bits(self) -> usize {
        with_state(self.state.bits | TaskState::PANICKED, TaskState::COMPLETE)
    }

    /// This header after a poll of its future panicked.
    pub open spec fn after_panic(self) -> Self {
        Header {
            state: TaskState { bits: given_back(self.panicked_bits(), self.detached) },
            join_waker: if self.join_interest() {
                None
            } else {
                self.join_waker
            },
            woken: false,
            stopped: self.aborted(),
            ..self
        }
    }

    /// Whether a panic gives back the last reference of a completed task.
    pub open spec fn panic_frees(self) -> bool {
        gives_last(self.panicked_bits(), self.detached)
    }

    /// This header after its join handle was dropped. A completed task forgets
    /// the waker that it was left, and the reference of the handle is given back.
    pub open spec fn after_detach(self) -> Self {
        if self.complete() {
            let unjoined = self.state.bits & !TaskState::JOIN_INTEREST;
            Header {
                state: TaskState {
                    bits: if self.detached {
                        unjoined
                    } else {
                        released(unjoined)
                    },
                },
                join_waker: None,
                detached: true,
                ..self
            }
        } else {
            Header { detached: true, ..self }
        }
    }

    /// Whether the join handle had the last reference of a completed task.
    pub open spec fn detach_frees(self) -> bool {
        !self.detached && last_waker(self.state.bits)
    }
}

/// A state word after the reference of a poll was given back and, if the task is
/// complete and has no join handle, the reference that it was made with.
pub open spec fn given_back(bits: usize, detached: bool) -> usize {
    if detached && state_of(bits) == TaskState::COMPLETE && !last_waker(bits) {
        released(released(bits))
    } else {
        released(bits)
    }
}

/// Whether this gives back the last reference of a completed task.
pub open spec fn gives_last(bits: usize, detached: bool) -> bool {
    last_waker(bits) || (detached && last_waker(released(bits)))
}

/// Whether dropping a waker from this word is the end of a completed task.
pub open spec fn last_waker(bits: usize) -> bool {
    refcount_of(bits) == 1 && state_of(bits) == TaskState::COMPLETE
}

/// Set the join waker of a task.
///
/// Returns true if the task is already complete.
pub fn set_join_waker<F, T, W>(header: &mut Header<F, T, W>, waker: W) -> (complete: bool)
    ensures
        *final(header) == old(header).after_join(waker),
        complete == old(header).complete(),
{
    let prev = header.state;
    header.state = prev.with_flag(TaskState::from_bits(TaskState::JOIN_INTEREST));
    header.join_waker = Some(waker);
    prev.is_complete()
}

/// Try to read the output of a task. It is there to be read once the task is
/// complete, unless the task was aborted before, and it can be read once.
pub fn try_read_output<F, T, W>(header: &mut Header<F, T, W>) -> (output: Option<T>)
    ensures
        *final(header) == old(header).after_read(),
        output == (if old(header).readable() {
            old(header).output
        } else {
            None
        }),
{
    if !header.state.is_complete() {
        return None;
    }
    if header.stopped {
        return None;
    }
    header.output.take()
}

/// Abort a task. Returns the join waker to wake.
pub fn abort_task<F, T, W>(header: &mut Header<F, T, W>) -> (wake: Option<W>)
    ensures
        *final(header) == old(header).after_abort(),
        wake == old(header).abort_wakes(),
{
    proof {
        crate::task::state::lemma_aborted_word(header.state.bits);
    }
    header.state = header.state.with_flag(TaskState::from_bits(TaskState::ABORTED));
    if header.state.has_join_interest() {
        header.join_waker.take()
    } else {
        None
    }
}

/// What running a task starts with.
pub enum RunStep<F> {
    /// Poll this future, with a waker for the task, and hand both the future
    /// and what it gave to [`Task::finish_run`]; if the poll panics, say so with
    /// [`Task::finish_panicked`].
    Poll(F),
    /// The task was aborted: its future is not to be polled.
    Aborted,
    /// The task is complete: its future is not to be polled any more.
    Complete,
    /// The future is out: another run of the task is polling it.
    Busy,
}

/// What the end of a poll asks for.
pub struct PollEffect<W> {
    /// The join waker to wake.
    pub wake: Option<W>,
    /// Whether the task was woken meanwhile and has to be scheduled again.
    pub schedule: bool,
    /// Whether the task is over and its header has to go.
    pub deallocate: bool,
}

/// What the end of a run asks for.
pub struct RunEnd<W> {
    /// The join waker to wake.
    pub wake: Option<W>,
    /// Where the task has to go, if it was woken meanwhile.
    pub schedule: Option<Schedule>,
}

/// Size and alignment of a type or an allocation.
#[derive(Debug, Clone, Copy, PartialEq, Eq, Structural)]
pub struct Layout {
    pub size: usize,
    pub align: usize,
}

/// The operations on a task whose future is an `F` and whose output is a `T`.
pub struct VTableFor<F, T> {
    _marker: PhantomData<(F, T)>,
}

impl<F, T> VTableFor<F, T> {
    /// Take the future of a task out for a poll, unless the task was aborted, is
    /// complete, or is being polled already. The waker of the poll takes a
    /// reference.
    pub fn start_poll<W>(header: &mut Header<F, T, W>) -> (step: RunStep<F>)
        ensures
            old(header).aborted() ==> step is Aborted,
            !old(header).aborted() && old(header).complete() ==> step is Complete,
            !old(header).aborted() && !old(header).complete() && (old(header).running() || old(
                header,
            ).future is None) ==> step is Busy,
            old(header).startable() && old(header).future is Some ==> step == RunStep::Poll(
                old(header).future->0,
            ),
            *final(header) == (if step is Poll {
                old(header).after_start()
            } else {
                *old(header)
            }),
    {
        if header.state.is_aborted() {
            return RunStep::Aborted;
        }
        if header.state.is_complete() {
            return RunStep::Complete;
        }
        if header.state.is_running() {
            return RunStep::Busy;
        }
        match header.future.take() {
            Some(future) => {
                clone_waker(header);
                header.state = header.state.with_state(TaskState::RUNNING);
                header.woken = false;
                RunStep::Poll(future)
            },
            None => RunStep::Busy,
        }
    }

    /// Give back the reference of a poll and, if the task is complete and has no
    /// join handle, the one that it was made with. Returns true if the task is
    /// over.
    fn give_back<W>(header: &mut Header<F, T, W>) -> (deallocate: bool)
        ensures
            *final(header) == old(header).with_bits(
                given_back(old(header).state.bits, old(header).detached),
            ),
            deallocate == gives_last(old(header).state.bits, old(header).detached),
    {
        proof {
            lemma_counted_word(header.state.bits);
        }
        if drop_waker(header) {
            true
        } else if header.detached && header.state.is_complete() {
            drop_waker(header)
        } else {
            false
        }
    }

    /// End a poll: put the future back, store an output and mark the task
    /// complete, or make it idle again, or scheduled if it was woken meanwhile;
    /// and drop the waker that the future was polled with. A task that was aborted
    /// meanwhile completes, too, but remembers it.
    pub fn poll<W>(header: &mut Header<F, T, W>, future: F, polled: Poll<T>) -> (effect: PollEffect<
        W,
    >)
        requires
            old(header).running(),
        ensures
            *final(header) == old(header).after_poll(future, polled),
            effect.wake == old(header).poll_wakes(polled),
            effect.schedule == old(header).poll_schedules(polled),
            effect.deallocate == old(header).poll_frees(polled),
    {
        header.future = Some(future);
        let prev = header.state;
        let mut wake: Option<W> = None;
        let mut schedule = false;
        match polled {
            Poll::Ready(output) => {
                header.output = Some(output);
                header.state = prev.with_state(TaskState::COMPLETE);
                header.stopped = prev.is_aborted();
                if prev.has_join_interest() {
                    wake = header.join_waker.take();
                }
            },
            Poll::Pending => {
                schedule = header.woken && !prev.is_aborted();
                let next: usize = if schedule {
                    TaskState::SCHEDULED
                } else {
                    TaskState::IDLE
                };
                header.state = prev.with_state(next);
            },
        }
        header.woken = false;
        let deallocate = Self::give_back(header);
        PollEffect { wake, schedule, deallocate }
    }

    /// End a poll that panicked: mark the task complete, without an output, and
    /// drop the waker that the future was polled with.
    pub fn poll_panicked<W>(header: &mut Header<F, T, W>) -> (effect: PollEffect<W>)
        requires
            old(header).running(),
        ensures
            *final(header) == old(header).after_panic(),
            effect.wake == old(header).abort_wakes(),
            !effect.schedule,
            effect.deallocate == old(header).panic_frees(),
    {
        let prev = header.state;
        let flagged = prev.with_flag(TaskState::from_bits(TaskState::PANICKED));
        header.state = flagged.with_state(TaskState::COMPLETE);
        header.stopped = prev.is_aborted();
        let wake = if prev.has_join_interest() {
            header.join_waker.take()
        } else {
            None
        };
        header.woken = false;
        let deallocate = Self::give_back(header);
        PollEffect { wake, schedule: false, deallocate }
    }

    /// Deallocate a task: its header, its future and its output go.
    pub fn deallocate<W>(tasks: &mut Tasks<F, T, W>, header: u64)
        requires
            old(tasks).wf(),
            old(tasks)@.contains_key(header),
        ensures
            final(tasks).wf(),
            final(tasks).next_key() == old(tasks).next_key(),
            final(tasks)@ == old(tasks)@.remove(header),
    {
        tasks.remove(header);
    }

    /// The layout of a task that holds header, future and output one behind
    /// the other; `None` if there is no such layout.
    pub fn task_layout(header: Layout, future: Layout, output: Layout) -> (layout: Option<Layout>)
        requires
            vstd::layout::valid_layout(header.size, header.align),
            vstd::layout::valid_layout(future.size, future.align),
            vstd::layout::valid_layout(output.size, output.align),
        ensures
            ({
                let size = header.size + future.size + output.size;
                let align = vstd::math::max(
                    vstd::math::max(header.align as int, future.align as int),
                    output.align as int,
                );
                &&& layout is Some <==> size <= isize::MAX as int - (isize::MAX as int % align)
                &&& layout is Some ==> layout->0.size == size && layout->0.align == align
                &&& layout is Some ==> vstd::layout::valid_layout(layout->0.size, layout->0.align)
            }),
    {
        let mut align: usize = header.align;
        if align < future.align {
            align = future.align;
        }
        if align < output.align {
            align = output.align;
        }
        assert(align > 0) by {
            reveal(vstd::arithmetic::power2::is_pow2);
        }
        let limit: usize = isize::MAX as usize;
        let most: usize = limit - limit % align;
        if header.size > most || future.size > most - header.size || output.size > most
            - header.size - future.size {
            return None;
        }
        Some(Layout { size: header.size + future.size + output.size, align })
    }
}

/// The headers of all tasks, found by their keys.
///
/// A key stands for the address of a header: tasks, join handles and wakers
/// hold the key of the header that they share.
pub struct Tasks<F, T, W> {
    headers: HashMap<u64, Header<F, T, W>>,
    next: u64,
}

impl<F, T, W> View for Tasks<F, T, W> {
    type V = Map<u64, Header<F, T, W>>;

    closed spec fn view(&self) -> Map<u64, Header<F, T, W>> {
        self.headers@
    }
}

impl<F, T, W> Tasks<F, T, W> {
    /// The key of the next task: no header has this key or a larger one.
    pub closed spec fn next_key(self) -> u64 {
        self.next
    }

    /// Every header was made before the next one.
    pub open spec fn wf(self) -> bool {
        forall|key: u64| #[trigger] self@.contains_key(key) ==> key < self.next_key()
    }

    /// A table without tasks.
    pub fn new() -> (r: Self)
        ensures
            r.wf(),
            r@ == Map::<u64, Header<F, T, W>>::empty(),
            r.next_key() == 0,
    {
        Tasks { headers: HashMap::new(), next: 0 }
    }

    /// Whether the table has run out of keys.
    pub fn is_full(&self) -> (r: bool)
        ensures
            r == (self.next_key() == u64::MAX),
    {
        self.next == u64::MAX
    }

    /// Whether there is a header with this key.
    pub fn contains(&self, key: u64) -> (r: bool)
        ensures
            r == self@.contains_key(key),
    {
        self.headers.contains_key(&key)
    }

    /// The header with this key.
    pub fn get(&self, key: u64) -> (header: &Header<F, T, W>)
        requires
            self@.contains_key(key),
        ensures
            *header == self@[key],
    {
        self.headers.get(&key).unwrap()
    }

    /// Add a header under a new key.
    pub fn insert(&mut self, header: Header<F, T, W>) -> (key: u64)
        requires
            old(self).wf(),
            old(self).next_key() < u64::MAX,
        ensures
            final(self).wf(),
            key == old(self).next_key(),
            final(self).next_key() == key + 1,
            !old(self)@.contains_key(key),
            final(self)@ == old(self)@.insert(key, header),
    {
        let key: u64 = self.next;
        self.next = key + 1;
        self.headers.insert(key, header);
        assert forall|k: u64| #[trigger] self@.contains_key(k) implies k < self.next_key() by {
            assert(k == key || old(self)@.contains_key(k));
        }
        key
    }

    /// Take the header with this key out.
    pub fn remove(&mut self, key: u64) -> (header: Header<F, T, W>)
        requires
            old(self).wf(),
            old(self)@.contains_key(key),
        ensures
            final(self).wf(),
            final(self).next_key() == old(self).next_key(),
            final(self)@ == old(self)@.remove(key),
            header == old(self)@[key],
    {
        self.headers.remove(&key).unwrap()
    }

    /// Put a header back under the key that it had.
    pub(crate) fn restore(&mut self, key: u64, header: Header<F, T, W>)
        requires
            old(self).wf(),
            key < old(self).next_key(),
        ensures
            final(self).wf(),
            final(self).next_key() == old(self).next_key(),
            final(self)@ == old(self)@.insert(key, header),
    {
        self.headers.insert(key, header);
        assert forall|k: u64| #[trigger] self@.contains_key(k) implies k < self.next_key() by {
            assert(k == key || old(self)@.contains_key(k));
        }
    }
}

/// Where a woken task goes.
#[derive(Debug, Clone, Copy, PartialEq, Eq, Structural)]
pub enum Schedule {
    /// Run it on the waking thread.
    Run,
    /// Push it to the queue of this runtime and notify one of its workers.
    Push(u64),
    /// Push it to the queue of this thread and unpark its parker.
    Local(u64),
}

/// Where a task with this scheduler goes when it is woken on a thread whose
/// current runtime is `current`.
pub open spec fn schedule_of(scheduler: Option<SchedulerData>, current: Option<u64>) -> Schedule {
    match scheduler {
        None => Schedule::Run,
        Some(data) => match (data.thread, data.shared, current) {
            (Some(thread), _, _) => Schedule::Local(thread),
            (None, Some(shared), _) => Schedule::Push(shared),
            (None, None, Some(shared)) => Schedule::Push(shared),
            (None, None, None) => Schedule::Run,
        },
    }
}

/// A task that can be scheduled and run.
#[derive(Debug, Clone, Copy, PartialEq, Eq, Structural)]
pub struct Task {
    /// The key of its header.
    pub header: u64,
}

impl Task {
    /// The task with this header.
    pub fn from_raw(header: u64) -> (r: Self)
        ensures
            r.header == header,
    {
        Task { header }
    }

    /// The key of the header.
    pub fn into_raw(self) -> (r: u64)
        ensures
            r == self.header,
    {
        self.header
    }

    /// Start to run the task: see [`RunStep`]. A task that was aborted or is
    /// complete is not polled.
    pub fn run<F, T, W>(&self, tasks: &mut Tasks<F, T, W>) -> (step: RunStep<F>)
        requires
            old(tasks).wf(),
            old(tasks)@.contains_key(self.header),
        ensures
            final(tasks).wf(),
            final(tasks).next_key() == old(tasks).next_key(),
            ({
                let header = old(tasks)@[self.header];
                if header.aborted() {
                    step is Aborted && final(tasks)@ == old(tasks)@
                } else if header.complete() {
                    step is Complete && final(tasks)@ == old(tasks)@
                } else if header.running() || header.future is None {
                    step is Busy && final(tasks)@ == old(tasks)@
                } else {
                    &&& step == RunStep::Poll(header.future->0)
                    &&& final(tasks)@ == old(tasks)@.insert(self.header, header.after_start())
                }
            }),
    {
        let mut header = tasks.remove(self.header);
        let step = VTableFor::<F, T>::start_poll(&mut header);
        tasks.restore(self.header, header);
        assert(!(step is Poll) ==> tasks@ =~= old(tasks)@);
        assert(step is Poll ==> tasks@ =~= old(tasks)@.insert(self.header, header));
        step
    }

    /// End a run of the task: the future and what polling it gave come back.
    ///
    /// Returns the join waker to wake and, if the task was woken meanwhile, where
    /// it goes from a thread whose current runtime is `current`. A completed task
    /// whose last reference was given back leaves the table.
    pub fn finish_run<F, T, W>(
        &self,
        tasks: &mut Tasks<F, T, W>,
        current: Option<u64>,
        future: F,
        polled: Poll<T>,
    ) -> (end: RunEnd<W>)
        requires
            old(tasks).wf(),
            old(tasks)@.contains_key(self.header),
            old(tasks)@[self.header].running(),
        ensures
            final(tasks).wf(),
            final(tasks).next_key() == old(tasks).next_key(),
            ({
                let header = old(tasks)@[self.header];
                &&& end.wake == header.poll_wakes(polled)
                &&& end.schedule == (if header.poll_schedules(polled) {
                    Some(schedule_of(header.scheduler, current))
                } else {
                    None
                })
                &&& final(tasks)@ == if header.poll_frees(polled) {
                    old(tasks)@.remove(self.header)
                } else {
                    old(tasks)@.insert(self.header, header.after_poll(future, polled))
                }
            }),
    {
        let mut header = tasks.remove(self.header);
        let effect = VTableFor::<F, T>::poll(&mut header, future, polled);
        tasks.restore(self.header, header);
        assert(tasks@ =~= old(tasks)@.insert(self.header, header));
        let schedule = if effect.schedule {
            Some(self.schedule(tasks, current))
        } else {
            None
        };
        if effect.deallocate {
            VTableFor::<F, T>::deallocate(tasks, self.header);
            assert(tasks@ =~= old(tasks)@.remove(self.header));
        }
        RunEnd { wake: effect.wake, schedule }
    }

    /// End a run of the task whose future panicked. Returns the join waker to
    /// wake. A task whose last reference was given back leaves the table.
    pub fn finish_panicked<F, T, W>(&self, tasks: &mut Tasks<F, T, W>) -> (wake: Option<W>)
        requires
            old(tasks).wf(),
            old(tasks)@.contains_key(self.header),
            old(tasks)@[self.header].running(),
        ensures
            final(tasks).wf(),
            final(tasks).next_key() == old(tasks).next_key(),
            ({
                let header = old(tasks)@[self.header];
                &&& wake == header.abort_wakes()
                &&& final(tasks)@ == if header.panic_frees() {
                    old(tasks)@.remove(self.header)
                } else {
                    old(tasks)@.insert(self.header, header.after_panic())
                }
            }),
    {
        let mut header = tasks.remove(self.header);
        let effect = VTableFor::<F, T>::poll_panicked(&mut header);
        tasks.restore(self.header, header);
        assert(tasks@ =~= old(tasks)@.insert(self.header, header));
        if effect.deallocate {
            VTableFor::<F, T>::deallocate(tasks, self.header);
            assert(tasks@ =~= old(tasks)@.remove(self.header));
        }
        effect.wake
    }

    /// Where the task goes when it is scheduled on a thread whose current
    /// runtime is `current`.
    pub fn schedule<F, T, W>(&self, tasks: &Tasks<F, T, W>, current: Option<u64>) -> (to: Schedule)
        requires
            tasks@.contains_key(self.header),
        ensures
            to == schedule_of(tasks@[self.header].scheduler, current),
    {
        match tasks.get(self.header).scheduler {
            None => Schedule::Run,
            Some(data) => if let Some(thread) = data.thread {
                Schedule::Local(thread)
            } else if let Some(shared) = data.shared {
                Schedule::Push(shared)
            } else if let Some(shared) = current {
                Schedule::Push(shared)
            } else {
                Schedule::Run
            },
        }
    }

    /// The state word of the task.
    pub fn state<F, T, W>(&self, tasks: &Tasks<F, T, W>) -> (state: TaskState)
        requires
            tasks@.contains_key(self.header),
        ensures
            state == tasks@[self.header].state,
    {
        tasks.get(self.header).state
    }

    /// Set the state word of the task.
    pub fn set_state<F, T, W>(&self, tasks: &mut Tasks<F, T, W>, state: TaskState)
        requires
            old(tasks).wf(),
            old(tasks)@.contains_key(self.header),
        ensures
            final(tasks).wf(),
            final(tasks).next_key() == old(tasks).next_key(),
            final(tasks)@ == old(tasks)@.insert(
                self.header,
                old(tasks)@[self.header].with_bits(state.bits),
            ),
    {
        let mut header = tasks.remove(self.header);
        header.state = state;
        tasks.restore(self.header, header);
        assert(tasks@ =~= old(tasks)@.insert(self.header, header));
    }

    /// Move the task from the word `from` to the word `to`, if `from` is the
    /// word that it has. Returns whether it was.
    pub fn transition_state<F, T, W>(
        &self,
        tasks: &mut Tasks<F, T, W>,
        from: TaskState,
        to: TaskState,
    ) -> (moved: bool)
        requires
            old(tasks).wf(),
            old(tasks)@.contains_key(self.header),
        ensures
            final(tasks).wf(),
            final(tasks).next_key() == old(tasks).next_key(),
            moved == (old(tasks)@[self.header].state == from),
            final(tasks)@ == if moved {
                old(tasks)@.insert(self.header, old(tasks)@[self.header].with_bits(to.bits))
            } else {
                old(tasks)@
            },
    {
        if self.state(tasks) == from {
            self.set_state(tasks, to);
            true
        } else {
            false
        }
    }
}

/// The header of a task that was just made: idle, with one reference.
pub open spec fn fresh_header<F, T, W>(future: F, scheduler: SchedulerData) -> Header<F, T, W> {
    Header {
        state: TaskState { bits: 0x1_0000 },
        scheduler: Some(scheduler),
        future: Some(future),
        output: None,
        join_waker: None,
        woken: false,
        detached: false,
        stopped: false,
    }
}

/// Make a task from a future. Returns the task and the key of its header.
pub fn create_raw_task<F, T, W>(
    tasks: &mut Tasks<F, T, W>,
    future: F,
    scheduler: SchedulerData,
) -> (r: (Task, u64))
    requires
        old(tasks).wf(),
        old(tasks).next_key() < u64::MAX,
    ensures
        final(tasks).wf(),
        r.0.header == r.1,
        r.1 == old(tasks).next_key(),
        !old(tasks)@.contains_key(r.1),
        final(tasks).next_key() == r.1 + 1,
        final(tasks)@ == old(tasks)@.insert(r.1, fresh_header(future, scheduler)),
{
    let header = tasks.insert(
        Header {
            state: TaskState::from_bits(TaskState::IDLE).with_refcount(1),
            scheduler: Some(scheduler),
            future: Some(future),
            output: None,
            join_waker: None,
            woken: false,
            detached: false,
            stopped: false,
        },
    );
    (Task { header }, header)
}

} // verus!

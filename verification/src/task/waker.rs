//! Wakers: what waking, cloning and dropping one does.

use crate::task::raw::{last_waker, schedule_of, Header, Schedule, Task, Tasks, VTableFor};
use crate::task::state::{aborted_bit, released, retained, state_of, TaskState};
use vstd::prelude::*;

verus! {

/// Whether a wake-up moves a task with this state word to a queue: it has to be
/// idle, and not aborted.
pub open spec fn wakeable(bits: usize) -> bool {
    state_of(bits) == TaskState::IDLE && !aborted_bit(bits)
}

/// A state word after a wake-up.
pub open spec fn woken(bits: usize) -> usize {
    if wakeable(bits) {
        (bits + TaskState::SCHEDULED) as usize
    } else {
        bits
    }
}

/// The word that a wake-up wants to put in place of `current`, or `None` where
/// the task is complete, aborted, scheduled or running and nothing is to be done.
pub fn wake_transition(current: TaskState) -> (desired: Option<TaskState>)
    ensures
        desired is Some <==> wakeable(current.bits),
        desired is Some ==> desired->0.bits == woken(current.bits),
{
    if current.is_complete() || current.is_aborted() {
        return None;
    }
    if current.is_scheduled() || current.is_running() {
        return None;
    }
    if !current.is_idle() {
        return None;
    }
    let b: usize = current.bits;
    assert((b & !3usize) | 1 == b + 1) by (bit_vector)
        requires
            b % 4 == 0,
    ;
    let desired: usize = (b & !TaskState::STATE_MASK) | TaskState::SCHEDULED;
    Some(TaskState::from_bits(desired))
}

/// Clone a waker: the task has one more reference.
pub fn clone_waker<F, T, W>(header: &mut Header<F, T, W>)
    ensures
        *final(header) == old(header).with_bits(retained(old(header).state.bits)),
{
    assert(1usize << 16 == 0x1_0000) by (bit_vector);
    let bits: usize = header.state.bits.wrapping_add(1 << TaskState::REFCOUNT_SHIFT);
    header.state = TaskState::from_bits(bits);
}

/// A header after a wake-up. A task that is being polled remembers it.
pub open spec fn after_wake<F, T, W>(header: Header<F, T, W>) -> Header<F, T, W> {
    Header {
        state: TaskState { bits: woken(header.state.bits) },
        woken: header.woken || (header.running() && !header.aborted()),
        ..header
    }
}

/// Wake a task. Returns true if the task went from idle to scheduled, and so
/// has to be handed to its scheduler. A task that is being polled remembers the
/// wake-up until the end of the poll. The waker keeps its reference until it is
/// dropped.
pub fn wake_waker<F, T, W>(header: &mut Header<F, T, W>) -> (schedule: bool)
    ensures
        *final(header) == after_wake(*old(header)),
        schedule == wakeable(old(header).state.bits),
{
    match wake_transition(header.state) {
        Some(desired) => {
            header.state = desired;
            true
        },
        None => {
            if header.state.is_running() && !header.state.is_aborted() {
                header.woken = true;
            }
            false
        },
    }
}

/// Wake a task by reference: the same as [`wake_waker`].
pub fn wake_by_ref_waker<F, T, W>(header: &mut Header<F, T, W>) -> (schedule: bool)
    ensures
        *final(header) == after_wake(*old(header)),
        schedule == wakeable(old(header).state.bits),
{
    wake_waker(header)
}

/// Drop a waker: the task has one reference fewer. Returns true if this was
/// the last waker of a completed task, which then has to be deallocated.
pub fn drop_waker<F, T, W>(header: &mut Header<F, T, W>) -> (deallocate: bool)
    ensures
        *final(header) == old(header).with_bits(released(old(header).state.bits)),
        deallocate == last_waker(old(header).state.bits),
{
    let prev = header.state;
    assert(1usize << 16 == 0x1_0000) by (bit_vector);
    let bits: usize = prev.bits.wrapping_sub(1 << TaskState::REFCOUNT_SHIFT);
    header.state = TaskState::from_bits(bits);
    prev.refcount() == 1 && prev.is_complete()
}

/// Take a reference to a task: its waker was cloned.
pub fn retain_task<F, T, W>(tasks: &mut Tasks<F, T, W>, header: u64)
    requires
        old(tasks).wf(),
        old(tasks)@.contains_key(header),
    ensures
        final(tasks).wf(),
        final(tasks).next_key() == old(tasks).next_key(),
        final(tasks)@ == old(tasks)@.insert(
            header,
            old(tasks)@[header].with_bits(retained(old(tasks)@[header].state.bits)),
        ),
{
    let mut cell = tasks.remove(header);
    clone_waker(&mut cell);
    tasks.restore(header, cell);
    assert(tasks@ =~= old(tasks)@.insert(header, cell));
}

/// The table after a waker of the task `header` was dropped.
pub open spec fn without_waker<F, T, W>(
    tasks: Map<u64, Header<F, T, W>>,
    header: u64,
) -> Map<u64, Header<F, T, W>> {
    if last_waker(tasks[header].state.bits) {
        tasks.remove(header)
    } else {
        tasks.insert(header, tasks[header].with_bits(released(tasks[header].state.bits)))
    }
}

/// Give a reference to a task back: its waker was dropped. The last waker of a
/// completed task takes the task with it.
pub fn release_task<F, T, W>(tasks: &mut Tasks<F, T, W>, header: u64)
    requires
        old(tasks).wf(),
        old(tasks)@.contains_key(header),
    ensures
        final(tasks).wf(),
        final(tasks).next_key() == old(tasks).next_key(),
        final(tasks)@ == without_waker(old(tasks)@, header),
{
    let mut cell = tasks.remove(header);
    let deallocate = drop_waker(&mut cell);
    tasks.restore(header, cell);
    assert(tasks@ =~= old(tasks)@.insert(header, cell));
    if deallocate {
        VTableFor::<F, T>::deallocate(tasks, header);
        assert(tasks@ =~= old(tasks)@.remove(header));
    }
}

/// Wake a task on a thread whose current runtime is `current`. Returns where
/// the task has to go, or `None` if the wake-up changes nothing.
pub fn wake_task<F, T, W>(tasks: &mut Tasks<F, T, W>, header: u64, current: Option<u64>) -> (to:
    Option<Schedule>)
    requires
        old(tasks).wf(),
        old(tasks)@.contains_key(header),
    ensures
        final(tasks).wf(),
        final(tasks).next_key() == old(tasks).next_key(),
        final(tasks)@ == old(tasks)@.insert(header, after_wake(old(tasks)@[header])),
        to == (if wakeable(old(tasks)@[header].state.bits) {
            Some(schedule_of(old(tasks)@[header].scheduler, current))
        } else {
            None
        }),
{
    let mut cell = tasks.remove(header);
    let schedule = wake_waker(&mut cell);
    tasks.restore(header, cell);
    assert(tasks@ =~= old(tasks)@.insert(header, cell));
    if schedule {
        Some(Task::from_raw(header).schedule(tasks, current))
    } else {
        None
    }
}

/// What a waker does when it is cloned, woken or dropped.
#[derive(Debug, Clone, Copy, PartialEq, Eq, Structural)]
pub enum WakerVtable {
    /// Wakes the task whose header has the key in the data.
    Task,
    /// Does nothing.
    Noop,
    /// Unparks the thread parker with the number in the data.
    ThreadPark,
    /// Unparks the sleep parker with the number in the data.
    SleepPark,
    /// Unparks the yield parker with the number in the data.
    YieldPark,
    /// Unparks the parker of a current-thread scheduler.
    ThreadParker,
    /// Unparks the thread that blocks on a future.
    BlockOn,
}

/// A waker: what it does, and to whom.
#[derive(Debug, Clone, Copy, PartialEq, Eq, Structural)]
pub struct Waker {
    pub data: u64,
    pub vtable: WakerVtable,
}

/// The waker of a task.
pub fn waker_from_task(header: u64) -> (waker: Waker)
    ensures
        waker == (Waker { data: header, vtable: WakerVtable::Task }),
{
    Waker { data: header, vtable: WakerVtable::Task }
}

/// A waker that does nothing.
pub fn noop_waker() -> (waker: Waker)
    ensures
        waker == (Waker { data: 0, vtable: WakerVtable::Noop }),
{
    Waker { data: 0, vtable: WakerVtable::Noop }
}

/// A waker that can be used to wake a task by hand.
pub struct ManualWaker {
    header: Option<u64>,
}

impl ManualWaker {
    /// The task that this waker wakes.
    pub closed spec fn target(self) -> Option<u64> {
        self.header
    }

    /// A manual waker for a task. It holds a reference.
    pub fn new<F, T, W>(tasks: &mut Tasks<F, T, W>, header: u64) -> (waker: Self)
        requires
            old(tasks).wf(),
            old(tasks)@.contains_key(header),
        ensures
            waker.target() == Some(header),
            final(tasks).wf(),
            final(tasks).next_key() == old(tasks).next_key(),
            final(tasks)@ == old(tasks)@.insert(
                header,
                old(tasks)@[header].with_bits(retained(old(tasks)@[header].state.bits)),
            ),
    {
        retain_task(tasks, header);
        ManualWaker { header: Some(header) }
    }

    /// Wake the task, whatever its state: returns where it has to go.
    pub fn wake<F, T, W>(&self, tasks: &Tasks<F, T, W>, current: Option<u64>) -> (to: Option<
        Schedule,
    >)
        requires
            self.target() is Some ==> tasks@.contains_key(self.target()->0),
        ensures
            to == (match self.target() {
                Some(header) => Some(schedule_of(tasks@[header].scheduler, current)),
                None => None,
            }),
    {
        match self.header {
            Some(header) => Some(Task::from_raw(header).schedule(tasks, current)),
            None => None,
        }
    }

    /// Convert to a waker, which takes over the reference that this one holds.
    pub fn into_waker(self) -> (waker: Waker)
        ensures
            waker == (match self.target() {
                Some(header) => Waker { data: header, vtable: WakerVtable::Task },
                None => Waker { data: 0, vtable: WakerVtable::Noop },
            }),
    {
        match self.header {
            Some(header) => waker_from_task(header),
            None => noop_waker(),
        }
    }

    /// Drop the waker: it gives back its reference.
    pub fn drop<F, T, W>(self, tasks: &mut Tasks<F, T, W>)
        requires
            old(tasks).wf(),
            self.target() is Some ==> old(tasks)@.contains_key(self.target()->0),
        ensures
            final(tasks).wf(),
            final(tasks).next_key() == old(tasks).next_key(),
            final(tasks)@ == (match self.target() {
                Some(header) => without_waker(old(tasks)@, header),
                None => old(tasks)@,
            }),
    {
        if let Some(header) = self.header {
            release_task(tasks, header);
        }
    }
}

/// A waker that calls a closure when it is woken.
pub struct CallbackWaker<C> where C: Fn() + Send + Sync + 'static {
    pub callback: Option<C>,
}

impl<C> CallbackWaker<C> where C: Fn() + Send + Sync + 'static {
    /// A waker that calls `callback`.
    pub fn new(callback: C) -> (waker: Self)
        ensures
            waker.callback == Some(callback),
    {
        CallbackWaker { callback: Some(callback) }
    }

    /// Call the callback, once.
    pub fn wake(&self)
        requires
            self.callback is Some ==> call_requires(self.callback->0, ()),
        ensures
            self.callback is Some ==> call_ensures(self.callback->0, (), ()),
    {
        if let Some(callback) = &self.callback {
            callback();
        }
    }

    /// Call the callback, once: the same as [`CallbackWaker::wake`].
    pub fn wake_by_ref(&self)
        requires
            self.callback is Some ==> call_requires(self.callback->0, ()),
        ensures
            self.callback is Some ==> call_ensures(self.callback->0, (), ()),
    {
        self.wake();
    }
}

impl<C> Clone for CallbackWaker<C> where C: Fn() + Send + Sync + Clone + 'static {
    fn clone(&self) -> (waker: Self)
        ensures
            self.callback is None ==> waker.callback is None,
            self.callback is Some ==> waker.callback is Some && cloned(
                self.callback->0,
                waker.callback->0,
            ),
    {
        CallbackWaker {
            callback: match &self.callback {
                Some(callback) => Some(callback.clone()),
                None => None,
            },
        }
    }
}

} // verus!

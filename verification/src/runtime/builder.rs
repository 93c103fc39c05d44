//! Building a runtime.

use crate::runtime::scheduler::current_thread::{CurrentThread, LocalQueue};
use crate::runtime::scheduler::multi_thread::MultiThread;
use crate::runtime::{Runtime, RuntimeKind};
use vstd::prelude::*;

verus! {

/// Which scheduler a runtime has.
#[derive(Debug, Clone, Copy, PartialEq, Eq, Structural)]
pub enum RuntimeFlavor {
    CurrentThread,
    MultiThread,
}

/// What a runtime is to be like.
#[derive(Debug, Clone, Copy, PartialEq, Eq, Structural)]
pub struct Builder {
    pub worker_threads: usize,
    pub flavor: RuntimeFlavor,
}

/// How many workers there are when this many were asked for.
pub open spec fn at_least_one(val: usize) -> usize {
    if val >= 1 {
        val
    } else {
        1
    }
}

/// There are as many workers as were asked for, but one at least.
pub proof fn law_workers_as_asked_for(val: usize)
    ensures
        at_least_one(val) >= 1,
        val >= 1 ==> at_least_one(val) == val,
        val == 0 ==> at_least_one(val) == 1,
{
}

impl Builder {
    /// There is at least one worker.
    pub open spec fn wf(self) -> bool {
        self.worker_threads >= 1
    }

    /// A runtime with as many workers as the machine has room for, or one worker
    /// if that is not known.
    pub fn new_multi_thread(available_parallelism: Option<usize>) -> (r: Self)
        requires
            available_parallelism is Some ==> available_parallelism->0 > 0,
        ensures
            r.wf(),
            r.flavor is MultiThread,
            r.worker_threads == (match available_parallelism {
                Some(n) => n,
                None => 1,
            }),
    {
        Builder {
            worker_threads: available_parallelism.unwrap_or(1),
            flavor: RuntimeFlavor::MultiThread,
        }
    }

    /// A runtime on the current thread.
    pub fn new_current_thread() -> (r: Self)
        ensures
            r.wf(),
            r.flavor is CurrentThread,
            r.worker_threads == 1,
    {
        Builder { worker_threads: 1, flavor: RuntimeFlavor::CurrentThread }
    }

    /// Set the number of workers; there is at least one.
    pub fn worker_threads(self, val: usize) -> (r: Self)
        ensures
            r.wf(),
            r.flavor == self.flavor,
            r.worker_threads == at_least_one(val),
            val >= 1 ==> r.worker_threads == val,
            val == 0 ==> r.worker_threads == 1,
    {
        let worker_threads: usize = if val >= 1 {
            val
        } else {
            1
        };
        Builder { worker_threads, flavor: self.flavor }
    }

    /// Build the runtime with this number.
    pub fn build(self, id: u64, local: &mut LocalQueue) -> (r: Runtime)
        requires
            self.wf(),
        ensures
            r.wf(),
            r.id() == id,
            final(local).tasks == old(local).tasks,
            match self.flavor {
                RuntimeFlavor::MultiThread => {
                    &&& r.inner matches RuntimeKind::MultiThread(scheduler)
                    &&& scheduler.shared.queue() == Seq::<u64>::empty()
                    &&& scheduler.shared.stealers@.len() == self.worker_threads
                    &&& scheduler.shared.locals() == Seq::new(
                        self.worker_threads as nat,
                        |i: int| Seq::<u64>::empty(),
                    )
                    &&& scheduler.shared.active == self.worker_threads
                    &&& !scheduler.shared.shutdown
                    &&& scheduler.workers@ == Seq::new(
                        self.worker_threads as nat,
                        |i: int| i as usize,
                    )
                    &&& final(local).same_but_tasks(*old(local))
                },
                RuntimeFlavor::CurrentThread => {
                    &&& r.inner matches RuntimeKind::CurrentThread(scheduler)
                    &&& scheduler.shared.queue() == Seq::<u64>::empty()
                    &&& scheduler.shared.stealers@.len() == 0
                    &&& scheduler.shared.unparkers@.len() == 0
                    &&& scheduler.shared.active == 1
                    &&& !scheduler.shared.shutdown
                    &&& scheduler.parker.id == id
                    &&& scheduler.parker.state is Empty
                    &&& !scheduler.shutdown
                    &&& final(local).parker == Some(id)
                    &&& final(local).thread == old(local).thread
                },
            },
    {
        match self.flavor {
            RuntimeFlavor::MultiThread => {
                let scheduler = MultiThread::new(id, self.worker_threads);
                Runtime { inner: RuntimeKind::MultiThread(scheduler) }
            },
            RuntimeFlavor::CurrentThread => {
                let scheduler = CurrentThread::new(id, local);
                Runtime { inner: RuntimeKind::CurrentThread(scheduler) }
            },
        }
    }
}

} // verus!

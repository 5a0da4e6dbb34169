//! The thread pool front-end and its workers.
//!
//! `ThreadPool::new` builds a fixed set of workers, each owning one handle to
//! the shared consumer endpoint of the job queue; `execute` type-erases a
//! closure and enqueues it; `shutdown` closes the queue and then releases
//! every worker, after the queued jobs have drained.
//!
//! Starting and joining an operating-system thread are effects this library
//! does not perform itself: the pool is generic over a worker handle `H`, and
//! the caller supplies a spawner that starts a thread looping over
//! [`run_next`] on the receiver it is handed (and, at shutdown, a joiner that waits for
//! the handle). Everything the pool decides — how many workers exist, which
//! receiver each one loops over, that the queue closes before the workers are
//! released — is verified here.

use vstd::prelude::*;
use crate::queue::JobSender;
use crate::queue::SharedReceiver;
use crate::queue::Task;
use crate::queue::job_channel;
use crate::queue::receiver_channel;
use crate::queue::sender_channel;

verus! {

/// The errors a pool surfaces instead of panicking.
#[derive(Clone, Copy, Debug, PartialEq, Eq, Structural)]
pub enum PoolError {
    /// A worker count of zero was requested: such a pool could never make
    /// progress, so construction refuses it.
    ZeroSize,
    /// The job queue is disconnected — every worker is gone — so nothing
    /// would ever run the submitted job.
    Disconnected,
}

/// What a worker does with the outcome of one receive: run the task if one
/// arrived, and decide whether to go on — `true` after a task ran, `false`
/// when the receive reported closure, which tells the worker to stop.
pub fn run_task(next: Option<Task>) -> (more: bool)
    ensures
        more == (next is Some),
{
    match next {
        Some(task) => {
            task.run();
            true
        },
        None => false,
    }
}

/// One step of the worker body: take the next task from the shared consumer
/// endpoint — blocking while the queue is empty — run it to completion, and
/// report whether to go on. Returns `false` once the queue is closed and
/// drained (or the guard is poisoned); a worker thread is exactly a loop over
/// this function. What the step does with the received value is the contract
/// of [`run_task`]; nothing can be promised here about the receive itself,
/// whose outcome depends on the channel's shared state.
///
/// The consumer guard is released inside `recv`, before the task runs, so one
/// long task never serializes the whole pool.
pub fn run_next(receiver: &SharedReceiver) -> (more: bool) {
    run_task(receiver.recv())
}

/// One pool-owned worker: its ordinal id and the opaque handle its spawner
/// returned for it.
struct Worker<H> {
    id: usize,
    handle: H,
}

/// Holds when `handle` is a value the spawner returned for ordinal `id` and
/// a consumer endpoint of the channel named `channel`.
pub open spec fn spawned_by<H, S: Fn(usize, SharedReceiver) -> H>(
    spawner: S,
    id: usize,
    channel: int,
    handle: H,
) -> bool {
    exists|r: SharedReceiver|
        spawner.ensures((id, r), handle) && receiver_channel(r) == channel
}

/// A fixed-size pool of workers fed from one shared job queue.
///
/// The worker set and the producer endpoint live exactly as long as the pool
/// value; the pool is not resizable after construction.
pub struct ThreadPool<H> {
    workers: Vec<Worker<H>>,
    sender: JobSender,
}

impl<H> ThreadPool<H> {
    /// How many workers this pool owns.
    pub closed spec fn worker_count(&self) -> nat {
        self.workers@.len()
    }

    /// The workers' handles, in ordinal order.
    pub closed spec fn handles(&self) -> Seq<H> {
        self.workers@.map(|i: int, w: Worker<H>| w.handle)
    }

    /// The identity of the job channel whose producer endpoint this pool
    /// stores; the workers were handed consumer endpoints of the same channel.
    pub closed spec fn channel_id(&self) -> int {
        sender_channel(self.sender)
    }

    /// Each worker carries its ordinal position as its id.
    pub closed spec fn wf(&self) -> bool {
        forall|i: int|
            0 <= i < self.workers@.len() ==> (#[trigger] self.workers@[i].id) == i
    }

    /// Builds a pool of exactly `size` workers, numbered `0 .. size`: creates
    /// one job queue, keeps its producer endpoint, and calls `spawner` once
    /// per ordinal, handing it an owned consumer endpoint of that same queue.
    /// Every worker handle the pool ends up owning came from the spawner call
    /// with its ordinal and a consumer endpoint of the pool's own channel.
    ///
    /// A pool with zero workers could never make progress, so `size == 0` is
    /// ruled out here; [`ThreadPool::try_new`] reports it as an error instead.
    pub fn new<S: Fn(usize, SharedReceiver) -> H>(size: usize, spawner: &S) -> (pool: ThreadPool<
        H,
    >)
        requires
            size > 0,
            forall|id: usize, r: SharedReceiver| #[trigger] spawner.requires((id, r)),
        ensures
            pool.worker_count() == size,
            pool.wf(),
            forall|i: int|
                0 <= i < size ==> spawned_by(
                    *spawner,
                    i as usize,
                    pool.channel_id(),
                    #[trigger] pool.handles()[i],
                ),
    {
        let (sender, receiver) = job_channel();
        let mut workers: Vec<Worker<H>> = Vec::new();
        let mut id: usize = 0;
        while id < size
            invariant
                id <= size,
                workers@.len() == id,
                sender_channel(sender) == receiver_channel(receiver),
                forall|id2: usize, r: SharedReceiver| #[trigger] spawner.requires((id2, r)),
                forall|j: int| 0 <= j < id ==> (#[trigger] workers@[j].id) == j,
                forall|j: int|
                    0 <= j < id ==> spawned_by(
                        *spawner,
                        j as usize,
                        sender_channel(sender),
                        (#[trigger] workers@[j]).handle,
                    ),
            decreases size - id,
        {
            let worker_receiver = receiver.share();
            let handle = spawner(id, worker_receiver);
            workers.push(Worker { id, handle });
            id = id + 1;
        }
        ThreadPool { workers, sender }
    }

    /// Hardened construction: refuses a zero worker count with a
    /// configuration error instead of ruling it out by precondition.
    pub fn try_new<S: Fn(usize, SharedReceiver) -> H>(size: usize, spawner: &S) -> (r: Result<
        ThreadPool<H>,
        PoolError,
    >)
        requires
            forall|id: usize, rc: SharedReceiver| #[trigger] spawner.requires((id, rc)),
        ensures
            size == 0 <==> r is Err,
            r matches Err(e) ==> e == PoolError::ZeroSize,
            r matches Ok(pool) ==> pool.worker_count() == size && pool.wf(),
            r matches Ok(pool) ==> forall|i: int|
                0 <= i < size ==> spawned_by(
                    *spawner,
                    i as usize,
                    pool.channel_id(),
                    #[trigger] pool.handles()[i],
                ),
    {
        if size == 0 {
            Err(PoolError::ZeroSize)
        } else {
            Ok(ThreadPool::new(size, spawner))
        }
    }

    /// Type-erases the closure and enqueues it; exactly one worker will
    /// eventually dequeue and invoke it. The only failure is a disconnected
    /// queue — every worker gone — reported instead of dropping the job
    /// silently.
    pub fn execute<F: FnOnce() + Send + 'static>(&self, f: F) -> (r: Result<(), PoolError>)
        requires
            f.requires(()),
        ensures
            r matches Err(e) ==> e == PoolError::Disconnected,
    {
        match self.sender.send(Task::new(f)) {
            Ok(()) => Ok(()),
            Err(_) => Err(PoolError::Disconnected),
        }
    }

    /// The configured worker count.
    pub fn size(&self) -> (n: usize)
        ensures
            n == self.worker_count(),
    {
        self.workers.len()
    }

    /// Close-then-join shutdown: drops the producer endpoint first, so the
    /// queue closes and the workers drain the tasks still queued before they
    /// observe closure, then hands every worker handle to `joiner` (which
    /// waits for the worker to stop).
    pub fn shutdown<J: Fn(H)>(self, joiner: &J)
        requires
            forall|h: H| #[trigger] joiner.requires((h,)),
    {
        let ThreadPool { mut workers, sender } = self;
        sender.close();
        while workers.len() > 0
            invariant
                forall|h: H| #[trigger] joiner.requires((h,)),
            decreases workers@.len(),
        {
            let worker = workers.pop().unwrap();
            joiner(worker.handle);
        }
    }
}

} // verus!

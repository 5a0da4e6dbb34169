//! The job queue: a type-erased task, the producer endpoint, and the shared
//! consumer endpoint.
//!
//! Everything here wraps standard-library primitives that Verus cannot model
//! directly (trait objects, `mpsc` channels, `Mutex`); each item's doc comment
//! names what it relies on. The logic that uses the queue lives in `pool` and
//! is verified against these contracts.

use vstd::prelude::*;

verus! {

/// A type-erased, single-invocation unit of work: a boxed `FnOnce` closure
/// ready to cross a thread boundary.
///
/// Verus does not model trait objects, so the box is hidden behind an opaque
/// struct. Every `Task` is built by [`Task::new`], whose precondition makes
/// the wrapped closure callable, so [`Task::run`] never invokes a closure
/// outside its own contract.
#[verifier::external_body]
pub struct Task {
    job: Box<dyn FnOnce() + Send + 'static>,
}

impl Task {
    /// Relies on `Box::new`: moves the closure to the heap unchanged, erasing
    /// only its type.
    #[verifier::external_body]
    pub(crate) fn new<F: FnOnce() + Send + 'static>(f: F) -> Task
        requires
            f.requires(()),
    {
        Task { job: Box::new(f) }
    }

    /// Relies on `<Box<dyn FnOnce()> as FnOnce>::call_once`: invokes the
    /// wrapped closure exactly once, consuming it. A panic inside the closure
    /// unwinds the calling thread only; the task itself is gone either way.
    #[verifier::external_body]
    pub(crate) fn run(self) {
        (self.job)()
    }
}

/// Producer endpoint of the job queue.
#[verifier::external_body]
pub struct JobSender {
    tx: std::sync::mpsc::Sender<Task>,
}

/// Consumer endpoint of the job queue, shared among workers: the single
/// receiving side of the channel behind a reference-counted mutual-exclusion
/// guard, so that at most one worker is mid-receive at a time.
#[verifier::external_body]
pub struct SharedReceiver {
    rx: std::sync::Arc<std::sync::Mutex<std::sync::mpsc::Receiver<Task>>>,
}

/// The identity of the channel a producer endpoint sends into. Opaque: two
/// endpoints are known to belong to one channel only where the contracts
/// below say so.
pub uninterp spec fn sender_channel(sender: JobSender) -> int;

/// The identity of the channel a consumer endpoint receives from.
pub uninterp spec fn receiver_channel(receiver: SharedReceiver) -> int;

/// Relies on `std::sync::mpsc::channel`: the returned endpoints are connected
/// — they belong to one channel — and every task accepted by `send` on the
/// producer is delivered at most once, in first-in-first-out order, through
/// `recv` on the consumer. `Arc::new` and `Mutex::new` only wrap the receiver
/// in its shared, lock-guarded form.
#[verifier::external_body]
pub(crate) fn job_channel() -> (r: (JobSender, SharedReceiver))
    ensures
        sender_channel(r.0) == receiver_channel(r.1),
{
    let (tx, rx) = std::sync::mpsc::channel();
    let rx = std::sync::Arc::new(std::sync::Mutex::new(rx));
    (JobSender { tx }, SharedReceiver { rx })
}

impl JobSender {
    /// Relies on `std::sync::mpsc::Sender::send`: a send fails only when the
    /// receiving endpoint has been dropped, and then hands the rejected task
    /// back unchanged; otherwise the task is queued behind every task
    /// previously sent through this handle.
    #[verifier::external_body]
    pub(crate) fn send(&self, task: Task) -> (r: Result<(), Task>)
        ensures
            r matches Err(rejected) ==> rejected == task,
    {
        match self.tx.send(task) {
            Ok(()) => Ok(()),
            Err(rejected) => Err(rejected.0),
        }
    }

    /// Relies on `Drop` of `std::sync::mpsc::Sender`: dropping the only
    /// producer endpoint disconnects the channel; the consumer still drains
    /// every task already queued and only then observes closure.
    #[verifier::external_body]
    pub(crate) fn close(self) {
        drop(self.tx)
    }
}

impl SharedReceiver {
    /// Relies on `std::sync::Arc::clone`: returns another handle to the same
    /// lock-guarded consumer endpoint, receiving from the same channel.
    #[verifier::external_body]
    pub(crate) fn share(&self) -> (r: SharedReceiver)
        ensures
            receiver_channel(r) == receiver_channel(*self),
    {
        SharedReceiver { rx: std::sync::Arc::clone(&self.rx) }
    }

    /// Relies on `std::sync::Mutex::lock` and `std::sync::mpsc::Receiver::recv`:
    /// blocks until the calling worker holds the guard and the next queued task
    /// (first-in-first-out) arrives, then releases the guard before returning,
    /// so the caller runs the task without serializing the other workers.
    /// Returns `None` when the channel is disconnected and drained, or when the
    /// guard is poisoned; never panics.
    #[verifier::external_body]
    pub(crate) fn recv(&self) -> Option<Task> {
        match self.rx.lock() {
            Ok(guard) => guard.recv().ok(),
            Err(_) => None,
        }
    }
}

} // verus!

//! The worker pool that runs asynchronous calls, started and stopped with the
//! module rather than by the first call that needs it.

use vstd::prelude::*;
use threadpool::ThreadPool;

verus! {

/// `threadpool::ThreadPool`: a fixed set of worker threads that take jobs off
/// one queue. Nothing is known of what is inside.
#[verifier::external_type_specification]
#[verifier::external_body]
pub struct ExThreadPool(ThreadPool);

/// `ThreadPool::default`: a pool with one worker for each processor.
///
/// Nothing is claimed of the pool that comes back. Where the system will not
/// start a thread the call panics, and nothing here can rule that out.
#[verifier::external_body]
fn default_pool() -> ThreadPool {
    ThreadPool::default()
}

/// `ThreadPool::execute`: puts `job` on the pool's queue; a worker runs it
/// once, later, on its own thread.
///
/// Nothing is claimed of the outcome. The pool will call `job`, so whoever
/// hands it over answers for what `job` requires.
#[verifier::external_body]
fn execute<F>(pool: &ThreadPool, job: F) where
    F: FnOnce() + Send + 'static,

    requires
        job.requires(()),
{
    pool.execute(job)
}

/// What the module holds for as long as it is loaded: the worker pool, from
/// start-up to shut-down.
pub struct Bridge {
    pool: Option<ThreadPool>,
}

impl Bridge {
    /// Whether there is a pool to take asynchronous calls.
    pub closed spec fn is_running(&self) -> bool {
        self.pool is Some
    }

    /// A bridge without a pool: the module before start-up or after
    /// shut-down.
    pub fn stopped() -> (bridge: Bridge)
        ensures
            !bridge.is_running(),
    {
        Bridge { pool: None }
    }

    /// Whether there is a pool to take asynchronous calls.
    pub fn running(&self) -> (b: bool)
        ensures
            b == self.is_running(),
    {
        self.pool.is_some()
    }

    /// Lets go of the pool. Jobs that are queued still run; no new one is
    /// taken.
    pub fn shut_down(&mut self)
        ensures
            !final(self).is_running(),
    {
        self.pool = None;
    }

    /// Queues `job` if there is a pool, and says whether there was.
    pub(crate) fn dispatch<F>(&self, job: F) -> (queued: bool) where
        F: FnOnce() + Send + 'static,

        requires
            job.requires(()),
        ensures
            queued == self.is_running(),
    {
        match &self.pool {
            Some(pool) => {
                execute(pool, job);
                true
            },
            None => false,
        }
    }
}

/// Start-up of the module: a bridge with a running pool, one worker for each
/// processor, however many calls will be outstanding.
pub fn napi_register_module_v1() -> (bridge: Bridge)
    ensures
        bridge.is_running(),
{
    Bridge { pool: Some(default_pool()) }
}

} // verus!

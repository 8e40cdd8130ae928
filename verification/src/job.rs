//! The job as the host sees it: made around a new engine, and disposed of when
//! the host is done with it.

use vstd::prelude::*;
use crate::context::{Context, ContextModel, JobModel, KeepAlive, KeepAliveModel};
use crate::error::{BridgeError, ErrorKind, ErrorModel};

verus! {

/// A new job: a context around a new engine, and the count of who refers to
/// it. The two are kept behind separate locks.
pub struct Job<E> {
    pub keep: KeepAlive,
    pub context: Context<E>,
}

impl<E> View for Job<E> {
    type V = JobModel<E>;

    open spec fn view(&self) -> JobModel<E> {
        JobModel { keep: self.keep@, context: self.context@ }
    }
}

/// The job around a new engine: referred to by the host only, and not broken.
pub open spec fn fresh_job<E>(engine: E) -> JobModel<E> {
    JobModel {
        keep: KeepAliveModel { attached: true, in_flight: 0 },
        context: ContextModel { engine: Some(engine), failed: false },
    }
}

/// What `create_class` returns for what the engine's constructor returned.
pub open spec fn wrapped<E>(result: Result<Job<E>, BridgeError>, made: Result<E, String>) -> bool {
    match made {
        Ok(engine) => result matches Ok(job) && job@ == fresh_job(engine),
        Err(text) => result matches Err(error) && error@ == (ErrorModel {
            kind: ErrorKind::EngineInit,
            text: Some(text@),
        }),
    }
}

/// Makes a job: constructs an engine with `create` and wraps it in a fresh
/// context. Where the engine cannot be constructed, the reason comes back as
/// an `EngineInit` error.
pub fn create_class<E, F>(create: F) -> (r: Result<Job<E>, BridgeError>) where
    F: FnOnce() -> Result<E, String>,

    requires
        create.requires(()),
    ensures
        exists|made: Result<E, String>| #[trigger] create.ensures((), made) && wrapped(r, made),
        r matches Ok(job) ==> job@.wf(),
{
    match create() {
        Ok(engine) => Ok(Job { keep: KeepAlive::new(), context: Context::new(engine) }),
        Err(text) => Err(BridgeError { kind: ErrorKind::EngineInit, text: Some(text) }),
    }
}

/// Disposes of the job at the host's request: lets go of the job's reference
/// to the context. Returns whether that was the last reference, in which
/// case the caller has to `free` the context now; while calls are in flight
/// the engine stays, and goes with the last of them. Disposing twice is the
/// same as disposing once, and the second time never asks for the engine to
/// be freed.
pub fn clean(keep: &mut KeepAlive) -> (last: bool)
    ensures
        final(keep)@ == old(keep)@.detached(),
        last == old(keep)@.last_to_detach(),
{
    keep.detach()
}

/// Disposes of the job when the host's collector finalizes it. The effect is
/// that of `clean`, also where `clean` came first.
pub fn drop_native(keep: &mut KeepAlive) -> (last: bool)
    ensures
        final(keep)@ == old(keep)@.detached(),
        last == old(keep)@.last_to_detach(),
{
    keep.detach()
}

} // verus!

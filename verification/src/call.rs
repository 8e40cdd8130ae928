//! Messages to the engine: a method name and a payload go in, a response comes
//! back as text. A synchronous call runs on the caller's thread. An
//! asynchronous one is queued, run by a worker and settled on the host's
//! thread.

use vstd::prelude::*;
use vstd::string::*;
use vstd::utf8::encode_utf8;
use crate::context::{fault_kind, job_of, refused_as, Context, KeepAlive};
use crate::error::{host_code, rendered, surfaced, BridgeError, ErrorKind, Fault, HostError};
use crate::pool::Bridge;
use crate::text::{get_string, read_as_text};

verus! {

/// What a caller gets for the engine's reply to a message: the fault, where
/// the engine reported one; else the response read as text.
pub open spec fn interpreted(
    result: Result<String, BridgeError>,
    response: Seq<u8>,
    status: Result<(), Fault>,
) -> bool {
    match status {
        Err(fault) => result matches Err(error) && error@ == surfaced(fault@),
        Ok(_) => read_as_text(result, response),
    }
}

/// Sends `payload` to `method` of the engine on the calling thread and waits
/// for the response.
///
/// The engine is handed exactly `method` and the bytes of `payload`. A call
/// that is turned away changes nothing and never reaches the engine. Where
/// the engine reports a fault, the response is not looked at. A response that
/// is not valid UTF-8 is an `Encoding` error, which leaves the context usable.
pub fn message_sync<E, F>(
    keep: &KeepAlive,
    ctx: &mut Context<E>,
    method: &str,
    payload: &str,
    send: F,
) -> (r: Result<String, BridgeError>) where
    F: FnOnce(&mut E, &str, &[u8]) -> (Vec<u8>, Result<(), Fault>),

    requires
        forall|engine: &mut E, body: &[u8]|
            body@ == encode_utf8(payload@) ==> send.requires((engine, method, body)),
    ensures
        match job_of(keep@, old(ctx)@).refusal() {
            Some(kind) => final(ctx)@ == old(ctx)@ && refused_as(r, kind),
            None => exists|engine: &mut E, body: &[u8], reply: (Vec<u8>, Result<(), Fault>)|
                {
                    &&& *engine == old(ctx)@.engine->0
                    &&& body@ == encode_utf8(payload@)
                    &&& #[trigger] send.ensures((engine, method, body), reply)
                    &&& final(ctx)@ == old(ctx)@.after_call(*final(engine), fault_kind(reply.1))
                    &&& interpreted(r, reply.0@, reply.1)
                },
        },
{
    match ctx.screen(keep) {
        Err(error) => Err(error),
        Ok(()) => {
            let (response, status) = send(ctx.engine_mut(), method, payload.as_bytes());
            match ctx.settle(status) {
                Err(error) => Err(error),
                Ok(()) => get_string(response.as_slice()),
            }
        },
    }
}

/// One asynchronous call between being issued and being run: the method and
/// the payload it will send.
///
/// The call counts as one reference to its context from the moment it is
/// issued until the reference is released after the run. It is neither
/// copied nor cloned, so it runs once.
#[derive(Debug)]
pub struct PendingCall {
    method: String,
    payload: String,
}

/// An asynchronous call that has run: its result, to be had in exchange for
/// the call's reference to the context.
#[derive(Debug)]
pub struct Completed {
    outcome: Result<String, BridgeError>,
}

/// How a call ends on the host's side: its pending-result handle is resolved
/// with the response, or rejected with an error.
#[derive(Debug, PartialEq, Eq)]
pub enum Settlement {
    Resolve(String),
    Reject(HostError),
}

/// What `PendingCall::issue` returns for a method and a payload: the call
/// that will send them, unless the call is not taken.
pub open spec fn issued(
    result: Result<PendingCall, BridgeError>,
    refusal: Option<ErrorKind>,
    method: Seq<char>,
    payload: Seq<char>,
) -> bool {
    match refusal {
        Some(kind) => refused_as(result, kind),
        None => result matches Ok(call) && call.method() == method && call.payload() == payload,
    }
}

impl PendingCall {
    /// The method that the call will send to.
    pub closed spec fn method(&self) -> Seq<char> {
        self.method@
    }

    /// The payload that the call will send.
    pub closed spec fn payload(&self) -> Seq<char> {
        self.payload@
    }

    /// The method that the call will send to.
    pub fn method_name(&self) -> (method: &str)
        ensures
            method@ == self.method(),
    {
        self.method.as_str()
    }

    /// The payload that the call will send.
    pub fn payload_text(&self) -> (payload: &str)
        ensures
            payload@ == self.payload(),
    {
        self.payload.as_str()
    }

    /// Makes an asynchronous call and counts it as a reference to the
    /// context, without queueing it anywhere. The call is not taken, and
    /// nothing changes, where the job is disposed, where `bridge` has no pool
    /// to run it, or where the count of calls in flight cannot grow.
    pub fn issue(bridge: &Bridge, keep: &mut KeepAlive, method: String, payload: String) -> (r: Result<
        PendingCall,
        BridgeError,
    >)
        ensures
            issued(r, old(keep)@.submission_refusal(bridge.is_running()), method@, payload@),
            match old(keep)@.submission_refusal(bridge.is_running()) {
                Some(_) => final(keep)@ == old(keep)@,
                None => final(keep)@ == old(keep)@.retained(),
            },
    {
        if !keep.is_attached() {
            return Err(BridgeError::bare(ErrorKind::Disposed));
        }
        if !bridge.running() || !keep.retain() {
            return Err(BridgeError::bare(ErrorKind::PoolUnavailable));
        }
        Ok(PendingCall { method, payload })
    }

    /// Runs the call on a worker: sends the payload to the engine unless the
    /// context has been broken in the meantime or the engine is gone.
    ///
    /// `send` is expected to catch what unwinds in the engine and to report
    /// it as a fault of kind `Panic`. A call that is turned away never
    /// reaches the engine. What comes back holds the result of the call until
    /// the call's reference is released.
    pub fn run<E, F>(self, ctx: &mut Context<E>, send: F) -> (done: Completed) where
        F: FnOnce(&mut E, &str, &[u8]) -> (Vec<u8>, Result<(), Fault>),

        requires
            forall|engine: &mut E, method: &str, body: &[u8]|
                method@ == self.method() && body@ == encode_utf8(self.payload()) ==> send.requires(
                    (engine, method, body),
                ),
        ensures
            match old(ctx)@.refusal() {
                Some(kind) => final(ctx)@ == old(ctx)@ && refused_as(done.outcome(), kind),
                None => exists|
                    engine: &mut E,
                    method: &str,
                    body: &[u8],
                    reply: (Vec<u8>, Result<(), Fault>),
                |
                    {
                        &&& *engine == old(ctx)@.engine->0
                        &&& method@ == self.method()
                        &&& body@ == encode_utf8(self.payload())
                        &&& #[trigger] send.ensures((engine, method, body), reply)
                        &&& final(ctx)@ == old(ctx)@.after_call(*final(engine), fault_kind(reply.1))
                        &&& interpreted(done.outcome(), reply.0@, reply.1)
                    },
            },
    {
        let outcome = match ctx.screen_worker() {
            Err(error) => Err(error),
            Ok(()) => {
                let (response, status) = send(
                    ctx.engine_mut(),
                    self.method.as_str(),
                    self.payload.as_str().as_bytes(),
                );
                match ctx.settle(status) {
                    Err(error) => Err(error),
                    Ok(()) => get_string(response.as_slice()),
                }
            },
        };
        Completed { outcome }
    }
}

impl Completed {
    /// The result of the call.
    pub closed spec fn outcome(&self) -> Result<String, BridgeError> {
        self.outcome
    }

    /// Lets go of the call's reference to the context and hands out the
    /// result of the call, for `task_complete` to settle the host's handle
    /// with. Also says whether the reference was the last one, in which case
    /// the caller has to `free` the context now.
    pub fn release(self, keep: &mut KeepAlive) -> (r: (Result<String, BridgeError>, bool))
        ensures
            r.0 == self.outcome(),
            r.1 == old(keep)@.last_to_release(),
            final(keep)@ == old(keep)@.released(),
    {
        let last = keep.release();
        (self.outcome, last)
    }
}

/// Issues an asynchronous call: counts it as a reference to the context and
/// queues `work` with the call on the worker pool. Returns at once, and needs
/// no access to the engine.
///
/// `work` runs later on a worker thread. It is expected to lock the context,
/// `run` the call, release the call's reference and send the result to the
/// host's thread. Where the call is not taken, nothing changes and `work` is
/// dropped unused: the job is disposed, or there is no pool, or the count of
/// calls in flight cannot grow. A broken context does not stop a call from
/// being queued: the worker finds out.
pub fn message<W>(
    bridge: &Bridge,
    keep: &mut KeepAlive,
    method: String,
    payload: String,
    work: W,
) -> (r: Result<(), BridgeError>) where
    W: FnOnce(PendingCall) + Send + 'static,

    requires
        forall|call: PendingCall|
            call.method() == method@ && call.payload() == payload@ ==> work.requires((call,)),
    ensures
        match old(keep)@.submission_refusal(bridge.is_running()) {
            Some(kind) => final(keep)@ == old(keep)@ && refused_as(r, kind),
            None => final(keep)@ == old(keep)@.retained() && r is Ok,
        },
{
    match PendingCall::issue(bridge, keep, method, payload) {
        Err(error) => Err(error),
        Ok(call) => {
            let job = move || -> (done: ())
                requires
                    work.requires((call,)),
                { work(call) };
            bridge.dispatch(job);
            Ok(())
        },
    }
}

/// What `task_complete` settles the host's handle with.
pub open spec fn settled(settlement: Settlement, outcome: Result<String, BridgeError>) -> bool {
    match outcome {
        Ok(text) => settlement == Settlement::Resolve(text),
        Err(error) => settlement matches Settlement::Reject(host) && host@ == (
            host_code(),
            rendered(error@),
        ),
    }
}

/// Settles a finished call on the host's thread: a response resolves the
/// pending-result handle, an error rejects it with the same code and message
/// that a synchronous call would have thrown.
pub fn task_complete(outcome: Result<String, BridgeError>) -> (settlement: Settlement)
    ensures
        settled(settlement, outcome),
{
    match outcome {
        Ok(text) => Settlement::Resolve(text),
        Err(error) => Settlement::Reject(error.to_host()),
    }
}

} // verus!

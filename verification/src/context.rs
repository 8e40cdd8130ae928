//! The guarded context and what keeps it alive.
//!
//! A `Context` holds one engine handle and the flag that records that the
//! engine can no longer be trusted. Whoever uses it has `&mut` access, so two
//! operations on one engine never overlap. A `KeepAlive` counts who still
//! refers to the context. It is kept apart from the engine so that issuing a
//! call, or disposing of a job, never has to wait for an operation that is
//! running on the engine.

use vstd::prelude::*;
use crate::error::{latches, surfaced, surfaced_kind, BridgeError, ErrorKind, ErrorModel, Fault, FaultKind};

verus! {

/// One engine handle and whether it can still be trusted.
pub struct Context<E> {
    engine: Option<E>,
    failed: bool,
}

/// Who still refers to a context: the job that the host sees, and the
/// asynchronous calls that are queued or running.
#[derive(Debug)]
pub struct KeepAlive {
    attached: bool,
    in_flight: usize,
}

/// A `Context` as contracts see it.
pub struct ContextModel<E> {
    /// The engine handle, until it is let go.
    pub engine: Option<E>,
    /// Set by the first engine error or panic, never cleared.
    pub failed: bool,
}

/// A `KeepAlive` as contracts see it.
pub struct KeepAliveModel {
    /// Whether the host's job still refers to the context.
    pub attached: bool,
    /// How many asynchronous calls refer to the context.
    pub in_flight: nat,
}

/// A job as a whole: a context and what keeps it alive.
pub struct JobModel<E> {
    pub keep: KeepAliveModel,
    pub context: ContextModel<E>,
}

impl<E> View for Context<E> {
    type V = ContextModel<E>;

    closed spec fn view(&self) -> ContextModel<E> {
        ContextModel { engine: self.engine, failed: self.failed }
    }
}

impl View for KeepAlive {
    type V = KeepAliveModel;

    closed spec fn view(&self) -> KeepAliveModel {
        KeepAliveModel { attached: self.attached, in_flight: self.in_flight as nat }
    }
}

/// The failure class of an outcome, if it is a failure.
pub open spec fn fault_kind<T>(outcome: Result<T, Fault>) -> Option<FaultKind> {
    match outcome {
        Ok(_) => None,
        Err(fault) => Some(fault.kind),
    }
}

/// What the caller gets for an outcome of the engine: the value itself, or the
/// fault reported as an error of the same class and text.
pub open spec fn answers<T>(result: Result<T, BridgeError>, outcome: Result<T, Fault>) -> bool {
    match outcome {
        Ok(value) => result == Ok::<T, BridgeError>(value),
        Err(fault) => result matches Err(error) && error@ == surfaced(fault@),
    }
}

/// A result that is an error of the given class, without text.
pub open spec fn refused_as<T>(result: Result<T, BridgeError>, kind: ErrorKind) -> bool {
    result matches Err(error) && error@ == (ErrorModel { kind, text: None })
}

/// The job that a context and its references make up.
pub open spec fn job_of<E>(keep: KeepAliveModel, context: ContextModel<E>) -> JobModel<E> {
    JobModel { keep, context }
}

impl KeepAliveModel {
    /// Whether anything still refers to the context.
    pub open spec fn live(self) -> bool {
        self.attached || self.in_flight > 0
    }

    /// The references after the host's job let go.
    pub open spec fn detached(self) -> Self {
        KeepAliveModel { attached: false, ..self }
    }

    /// The references with one more asynchronous call.
    pub open spec fn retained(self) -> Self {
        KeepAliveModel { in_flight: self.in_flight + 1, ..self }
    }

    /// The references after one asynchronous call let go.
    pub open spec fn released(self) -> Self {
        KeepAliveModel {
            in_flight: if self.in_flight > 0 {
                (self.in_flight - 1) as nat
            } else {
                0
            },
            ..self
        }
    }

    /// Why an asynchronous call is not taken, if it is not: the job is
    /// disposed, no pool is running, or no further call can be counted.
    pub open spec fn submission_refusal(self, pool_running: bool) -> Option<ErrorKind> {
        if !self.attached {
            Some(ErrorKind::Disposed)
        } else if !pool_running || self.in_flight >= usize::MAX {
            Some(ErrorKind::PoolUnavailable)
        } else {
            None
        }
    }

    /// Whether the host's job, letting go now, is the last to do so.
    pub open spec fn last_to_detach(self) -> bool {
        self.live() && !self.detached().live()
    }

    /// Whether an asynchronous call, letting go now, is the last to do so.
    pub open spec fn last_to_release(self) -> bool {
        self.live() && !self.released().live()
    }
}

impl<E> ContextModel<E> {
    /// Why a call is turned away by the context itself, if it is: the context
    /// is broken, or the engine is gone.
    pub open spec fn refusal(self) -> Option<ErrorKind> {
        if self.failed {
            Some(ErrorKind::ContextFailed)
        } else if self.engine is None {
            Some(ErrorKind::Disposed)
        } else {
            None
        }
    }

    /// The context after an operation that left the engine as `engine` and
    /// reported `fault`.
    pub open spec fn after_call(self, engine: E, fault: Option<FaultKind>) -> Self {
        ContextModel {
            engine: Some(engine),
            failed: self.failed || (fault matches Some(kind) && latches(kind)),
        }
    }

    /// The context after the engine was asked whether it has recorded an
    /// error of its own and said `reported`. A context without an engine has
    /// nothing to ask.
    pub open spec fn probed(self, reported: bool) -> Self {
        ContextModel { failed: self.failed || (self.engine is Some && reported), ..self }
    }

    /// The context after it let the engine go.
    pub open spec fn freed(self) -> Self {
        ContextModel { engine: None, ..self }
    }

    /// The context, with the engine let go if `last` says that nothing refers
    /// to it any more.
    pub open spec fn freed_if(self, last: bool) -> Self {
        if last {
            self.freed()
        } else {
            self
        }
    }
}

/// What the engine would do with one call if the call reached it: the state
/// it would be left in, and the fault it would report, if any.
pub struct Answer<E> {
    pub engine: E,
    pub fault: Option<FaultKind>,
}

/// Something that happens to a job.
pub enum Event<E> {
    /// A call from the host on its own thread: `with_engine`, or one of the
    /// operations on buffers, or a synchronous message.
    HostCall(Answer<E>),
    /// An asynchronous message is issued while a pool is running.
    Submit,
    /// A worker runs a queued message, lets go of the message's reference,
    /// and lets the engine go if that was the last reference.
    WorkerCall(Answer<E>),
    /// The job is disposed of, at the host's request or by its collector,
    /// and the engine is let go if the job's was the last reference.
    Dispose,
    /// The engine is asked whether it has recorded an error of its own, and
    /// answers this.
    Probe(bool),
}

impl<E> JobModel<E> {
    /// The engine is held exactly as long as something refers to the context.
    pub open spec fn wf(self) -> bool {
        self.context.engine is Some <==> self.keep.live()
    }

    /// Why a call that comes from the host is turned away, if it is: the
    /// context is broken, or the job is disposed.
    pub open spec fn refusal(self) -> Option<ErrorKind> {
        if self.context.failed {
            Some(ErrorKind::ContextFailed)
        } else if !self.keep.attached || self.context.engine is None {
            Some(ErrorKind::Disposed)
        } else {
            None
        }
    }

    /// Why a queued call is turned away when a worker picks it up, if it is:
    /// the context is broken, or the engine is gone.
    pub open spec fn worker_refusal(self) -> Option<ErrorKind> {
        self.context.refusal()
    }

    /// Why an asynchronous call is not taken, if it is not: the job is
    /// disposed, no pool is running, or no further call can be counted. A
    /// broken context does not keep a call from being queued.
    pub open spec fn submission_refusal(self, pool_running: bool) -> Option<ErrorKind> {
        self.keep.submission_refusal(pool_running)
    }

    /// Whether the event gets as far as the engine.
    pub open spec fn enters_engine(self, event: Event<E>) -> bool {
        match event {
            Event::HostCall(_) => self.refusal() is None,
            Event::WorkerCall(_) => self.worker_refusal() is None,
            Event::Submit | Event::Dispose | Event::Probe(_) => false,
        }
    }

    /// The class of the error in which the event ends, if it ends in one.
    pub open spec fn error_of(self, event: Event<E>) -> Option<ErrorKind> {
        match event {
            Event::HostCall(answer) => match self.refusal() {
                Some(kind) => Some(kind),
                None => match answer.fault {
                    Some(kind) => Some(surfaced_kind(kind)),
                    None => None,
                },
            },
            Event::WorkerCall(answer) => match self.worker_refusal() {
                Some(kind) => Some(kind),
                None => match answer.fault {
                    Some(kind) => Some(surfaced_kind(kind)),
                    None => None,
                },
            },
            Event::Submit => self.submission_refusal(true),
            Event::Dispose | Event::Probe(_) => None,
        }
    }

    /// The job after the event.
    pub open spec fn after(self, event: Event<E>) -> Self {
        match event {
            Event::HostCall(answer) => if self.refusal() is Some {
                self
            } else {
                JobModel { context: self.context.after_call(answer.engine, answer.fault), ..self }
            },
            Event::Submit => if self.submission_refusal(true) is Some {
                self
            } else {
                JobModel { keep: self.keep.retained(), ..self }
            },
            Event::WorkerCall(answer) => {
                let ran = if self.worker_refusal() is Some {
                    self.context
                } else {
                    self.context.after_call(answer.engine, answer.fault)
                };
                JobModel { keep: self.keep.released(), context: ran.freed_if(self.keep.last_to_release()) }
            },
            Event::Dispose => JobModel {
                keep: self.keep.detached(),
                context: self.context.freed_if(self.keep.last_to_detach()),
            },
            Event::Probe(reported) => JobModel { context: self.context.probed(reported), ..self },
        }
    }

    /// How many of the events get as far as the engine.
    pub open spec fn entries(self, events: Seq<Event<E>>) -> nat
        decreases events.len(),
    {
        if events.len() == 0 {
            0
        } else {
            let before = self.after_all(events.drop_last());
            self.entries(events.drop_last()) + if before.enters_engine(events.last()) {
                1nat
            } else {
                0nat
            }
        }
    }

    /// The job after the events, first to last.
    pub open spec fn after_all(self, events: Seq<Event<E>>) -> Self
        decreases events.len(),
    {
        if events.len() == 0 {
            self
        } else {
            self.after_all(events.drop_last()).after(events.last())
        }
    }
}

impl KeepAlive {
    /// The references to a fresh context: the host's job and nothing else.
    pub fn new() -> (keep: KeepAlive)
        ensures
            keep@ == (KeepAliveModel { attached: true, in_flight: 0 }),
    {
        KeepAlive { attached: true, in_flight: 0 }
    }

    /// Whether the host's job still refers to the context.
    pub fn is_attached(&self) -> (b: bool)
        ensures
            b == self@.attached,
    {
        self.attached
    }

    /// How many asynchronous calls refer to the context.
    pub fn in_flight(&self) -> (n: usize)
        ensures
            n == self@.in_flight,
    {
        self.in_flight
    }

    /// Whether anything still refers to the context.
    pub fn is_live(&self) -> (b: bool)
        ensures
            b == self@.live(),
    {
        self.attached || self.in_flight > 0
    }

    /// Lets go of the host's reference, and says whether it was the last
    /// reference of all: then, and only then, the engine has to go.
    pub(crate) fn detach(&mut self) -> (last: bool)
        ensures
            final(self)@ == old(self)@.detached(),
            last == old(self)@.last_to_detach(),
    {
        let last = self.attached && self.in_flight == 0;
        self.attached = false;
        last
    }

    /// Counts one more asynchronous call. Fails, changing nothing, when the
    /// count cannot grow.
    pub(crate) fn retain(&mut self) -> (ok: bool)
        ensures
            ok == (old(self)@.in_flight < usize::MAX),
            ok ==> final(self)@ == old(self)@.retained(),
            !ok ==> final(self)@ == old(self)@,
    {
        if self.in_flight < usize::MAX {
            self.in_flight = self.in_flight + 1;
            true
        } else {
            false
        }
    }

    /// Lets go of the reference of one asynchronous call, and says whether it
    /// was the last reference of all.
    pub(crate) fn release(&mut self) -> (last: bool)
        ensures
            final(self)@ == old(self)@.released(),
            last == old(self)@.last_to_release(),
    {
        let last = !self.attached && self.in_flight == 1;
        if self.in_flight > 0 {
            self.in_flight = self.in_flight - 1;
        }
        last
    }
}

impl<E> Context<E> {
    /// A fresh context around `engine`.
    pub fn new(engine: E) -> (ctx: Context<E>)
        ensures
            ctx@ == (ContextModel { engine: Some(engine), failed: false }),
    {
        Context { engine: Some(engine), failed: false }
    }

    /// Whether an engine error or panic has broken the context.
    pub fn has_failed(&self) -> (b: bool)
        ensures
            b == self@.failed,
    {
        self.failed
    }

    /// Whether the engine handle is still held.
    pub fn has_engine(&self) -> (b: bool)
        ensures
            b == self@.engine is Some,
    {
        self.engine.is_some()
    }

    /// Turns a call from the host away if the context is broken or the job is
    /// disposed.
    pub(crate) fn screen(&self, keep: &KeepAlive) -> (r: Result<(), BridgeError>)
        ensures
            match job_of(keep@, self@).refusal() {
                Some(kind) => refused_as(r, kind),
                None => r is Ok && self@.engine is Some,
            },
    {
        if self.failed {
            Err(BridgeError::bare(ErrorKind::ContextFailed))
        } else if !keep.is_attached() || self.engine.is_none() {
            Err(BridgeError::bare(ErrorKind::Disposed))
        } else {
            Ok(())
        }
    }

    /// Turns a queued call away if the context is broken or the engine is gone.
    pub(crate) fn screen_worker(&self) -> (r: Result<(), BridgeError>)
        ensures
            match self@.refusal() {
                Some(kind) => refused_as(r, kind),
                None => r is Ok && self@.engine is Some,
            },
    {
        if self.failed {
            Err(BridgeError::bare(ErrorKind::ContextFailed))
        } else if self.engine.is_none() {
            Err(BridgeError::bare(ErrorKind::Disposed))
        } else {
            Ok(())
        }
    }

    /// The engine, for one operation.
    pub(crate) fn engine_mut(&mut self) -> (engine: &mut E)
        requires
            old(self)@.engine is Some,
        ensures
            *engine == old(self)@.engine->0,
            final(self)@ == (ContextModel { engine: Some(*final(engine)), ..old(self)@ }),
    {
        match &mut self.engine {
            Some(engine) => engine,
            None => vstd::pervasive::unreached(),
        }
    }

    /// Records what an operation reported and turns it into the caller's result.
    pub(crate) fn settle<T>(&mut self, outcome: Result<T, Fault>) -> (r: Result<T, BridgeError>)
        requires
            old(self)@.engine is Some,
        ensures
            final(self)@ == old(self)@.after_call(old(self)@.engine->0, fault_kind(outcome)),
            answers(r, outcome),
    {
        match outcome {
            Ok(value) => Ok(value),
            Err(fault) => {
                if fault.kind.latches() {
                    self.failed = true;
                }
                Err(BridgeError::from_fault(fault))
            },
        }
    }

    /// Runs `op` on the engine unless the context is broken or the job is
    /// disposed, and breaks the context if `op` reports an engine error or a
    /// panic.
    ///
    /// `op` is expected to catch what unwinds in the engine and to report it
    /// as a fault of kind `Panic`. A call that is turned away changes nothing
    /// and never reaches `op`. Otherwise `op` is called once, on the engine
    /// as it was, and the engine stays as `op` left it.
    pub fn with_engine<T, F>(&mut self, keep: &KeepAlive, op: F) -> (r: Result<T, BridgeError>) where
        F: FnOnce(&mut E) -> Result<T, Fault>,

        requires
            forall|engine: &mut E| op.requires((engine,)),
        ensures
            match job_of(keep@, old(self)@).refusal() {
                Some(kind) => final(self)@ == old(self)@ && refused_as(r, kind),
                None => exists|engine: &mut E, outcome: Result<T, Fault>|
                    {
                        &&& *engine == old(self)@.engine->0
                        &&& #[trigger] op.ensures((engine,), outcome)
                        &&& final(self)@ == old(self)@.after_call(*final(engine), fault_kind(outcome))
                        &&& answers(r, outcome)
                    },
            },
    {
        match self.screen(keep) {
            Err(error) => Err(error),
            Ok(()) => {
                let outcome = op(self.engine_mut());
                self.settle(outcome)
            },
        }
    }

    /// Asks the engine, through `probe`, whether it has recorded an error of
    /// its own, and breaks the context if it has. Returns whether the context
    /// is broken now.
    ///
    /// A context that is already broken, or that holds no engine, is left as
    /// it is and `probe` is not called.
    pub fn check_outward_error<F>(&mut self, probe: F) -> (broken: bool) where
        F: FnOnce(&E) -> bool,

        requires
            forall|engine: &E| probe.requires((engine,)),
        ensures
            broken == final(self)@.failed,
            old(self)@.failed || old(self)@.engine is None ==> final(self)@ == old(self)@,
            !old(self)@.failed && old(self)@.engine is Some ==> exists|reported: bool|
                {
                    &&& #[trigger] probe.ensures((&old(self)@.engine->0,), reported)
                    &&& final(self)@ == old(self)@.probed(reported)
                },
    {
        if self.failed {
            return true;
        }
        let reported = match &self.engine {
            Some(engine) => probe(engine),
            None => false,
        };
        if reported {
            self.failed = true;
        }
        reported
    }

    /// Lets the engine go. To be called when, and only when, `clean`,
    /// `drop_native` or `Completed::release` said that the last reference is
    /// gone. Letting go twice is letting go once.
    pub fn free(&mut self)
        ensures
            final(self)@ == old(self)@.freed(),
    {
        self.engine = None;
    }
}

} // verus!

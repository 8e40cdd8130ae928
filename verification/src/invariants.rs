//! What holds of a job whatever happens to it, in whatever order.

use vstd::prelude::*;
use crate::context::{Answer, Event, JobModel};
use crate::error::{latches, sticky, surfaced_kind, ErrorKind, FaultKind};

verus! {

/// Each event is what the operations promise of the context and of the
/// references they are given: a call from the host for `with_engine`, the
/// operations on buffers and `message_sync`; a submission for `message` under
/// a running pool; a worker's call for `PendingCall::run`, the `release` that
/// follows it, and `free` where `release` asks for it; a disposal for `clean`
/// or `drop_native`, and `free` where they ask for it; a probe for
/// `check_outward_error`.
pub proof fn lemma_events_are_what_operations_do<E>(job: JobModel<E>, answer: Answer<E>, reported: bool)
    ensures
        job.after(Event::HostCall(answer)).keep == job.keep,
        job.refusal() is Some ==> job.after(Event::HostCall(answer)).context == job.context,
        job.refusal() is None ==> job.after(Event::HostCall(answer)).context == job.context.after_call(
            answer.engine,
            answer.fault,
        ),
        job.after(Event::Submit).context == job.context,
        job.keep.submission_refusal(true) is Some ==> job.after(Event::Submit).keep == job.keep,
        job.keep.submission_refusal(true) is None ==> job.after(Event::Submit).keep
            == job.keep.retained(),
        job.after(Event::WorkerCall(answer)).keep == job.keep.released(),
        job.context.refusal() is Some ==> job.after(Event::WorkerCall(answer)).context
            == job.context.freed_if(job.keep.last_to_release()),
        job.context.refusal() is None ==> job.after(Event::WorkerCall(answer)).context
            == job.context.after_call(answer.engine, answer.fault).freed_if(
            job.keep.last_to_release(),
        ),
        job.after(Event::Dispose).keep == job.keep.detached(),
        job.after(Event::Dispose).context == job.context.freed_if(job.keep.last_to_detach()),
        job.after(Event::Probe(reported)).keep == job.keep,
        job.after(Event::Probe(reported)).context == job.context.probed(reported),
        job.context.failed || job.context.engine is None ==> job.context.probed(reported)
            == job.context,
{
}

/// No event breaks the rule that the engine is held exactly as long as
/// something refers to the context.
pub proof fn lemma_reference_rule_is_kept<E>(job: JobModel<E>, event: Event<E>)
    requires
        job.wf(),
    ensures
        job.after(event).wf(),
{
}

/// The rule holds after any number of events.
pub proof fn lemma_reference_rule_is_kept_throughout<E>(job: JobModel<E>, events: Seq<Event<E>>)
    requires
        job.wf(),
    ensures
        job.after_all(events).wf(),
    decreases events.len(),
{
    if events.len() > 0 {
        lemma_reference_rule_is_kept_throughout(job, events.drop_last());
        lemma_reference_rule_is_kept(job.after_all(events.drop_last()), events.last());
    }
}

/// A call that reaches the engine and comes back with an engine error or a
/// panic breaks the context, and the caller is told so with an error of the
/// sticky class.
pub proof fn lemma_sticky_fault_breaks_context<E>(job: JobModel<E>, engine: E, kind: FaultKind)
    requires
        latches(kind),
    ensures
        job.context.after_call(engine, Some(kind)).failed,
        sticky(surfaced_kind(kind)),
        job.refusal() is None ==> job.after(
            Event::HostCall(Answer { engine, fault: Some(kind) }),
        ).context.failed,
        job.worker_refusal() is None ==> job.after(
            Event::WorkerCall(Answer { engine, fault: Some(kind) }),
        ).context.failed,
{
}

/// A fault that is neither an engine error nor a panic leaves the context as
/// usable as it was.
pub proof fn lemma_other_faults_do_not_stick<E>(job: JobModel<E>, engine: E, kind: FaultKind)
    requires
        !latches(kind),
    ensures
        job.context.after_call(engine, Some(kind)).failed == job.context.failed,
        !sticky(surfaced_kind(kind)),
{
}

proof fn lemma_broken_stays_broken<E>(job: JobModel<E>, events: Seq<Event<E>>)
    requires
        job.context.failed,
    ensures
        job.after_all(events).context.failed,
        job.after_all(events).context.engine is Some ==> job.after_all(events).context.engine
            == job.context.engine,
        job.entries(events) == 0,
    decreases events.len(),
{
    if events.len() > 0 {
        lemma_broken_stays_broken(job, events.drop_last());
    }
}

/// Once a context is broken it stays broken, whatever happens to the job:
/// every later call, from the host or from a worker, is turned away with
/// `ContextFailed`, which is of the sticky class, and nothing reaches the
/// engine again. While the engine is held at all, it is the engine as the
/// failure left it.
pub proof fn lemma_broken_context_is_never_entered<E>(job: JobModel<E>, events: Seq<Event<E>>)
    requires
        job.context.failed,
    ensures
        job.after_all(events).context.failed,
        job.after_all(events).refusal() == Some(ErrorKind::ContextFailed),
        job.after_all(events).worker_refusal() == Some(ErrorKind::ContextFailed),
        sticky(ErrorKind::ContextFailed),
        job.after_all(events).context.engine is Some ==> job.after_all(events).context.engine
            == job.context.engine,
        job.entries(events) == 0,
        forall|i: int|
            0 <= i < events.len() ==> !(#[trigger] job.after_all(events.take(i))).enters_engine(
                events[i],
            ),
        forall|i: int|
            0 <= i < events.len() && (events[i] is HostCall || events[i] is WorkerCall) ==> (
            #[trigger] job.after_all(events.take(i))).error_of(events[i]) == Some(
                ErrorKind::ContextFailed,
            ),
{
    lemma_broken_stays_broken(job, events);
    assert forall|i: int| 0 <= i < events.len() implies (#[trigger] job.after_all(
        events.take(i),
    )).context.failed by {
        lemma_broken_stays_broken(job, events.take(i));
    }
}

/// A call, from the host or from a worker, that the engine would answer
/// without an engine error or a panic.
pub open spec fn harmless_call<E>(event: Event<E>) -> bool {
    match event {
        Event::HostCall(answer) | Event::WorkerCall(answer) => !(answer.fault matches Some(kind) && latches(
            kind,
        )),
        Event::Submit | Event::Dispose | Event::Probe(_) => false,
    }
}

/// On a job that is neither broken nor disposed, every call gets as far as
/// the engine, as long as none of them comes back with an engine error or a
/// panic: so many calls, so many entries. Each call starts from the context
/// as the one before left it.
pub proof fn lemma_every_call_enters_a_healthy_engine<E>(job: JobModel<E>, events: Seq<Event<E>>)
    requires
        job.wf(),
        job.keep.attached,
        !job.context.failed,
        forall|i: int| 0 <= i < events.len() ==> harmless_call(#[trigger] events[i]),
    ensures
        job.entries(events) == events.len(),
        job.after_all(events).wf(),
        job.after_all(events).keep.attached,
        !job.after_all(events).context.failed,
    decreases events.len(),
{
    if events.len() > 0 {
        let earlier = events.drop_last();
        assert forall|i: int| 0 <= i < earlier.len() implies harmless_call(#[trigger] earlier[i]) by {
            assert(earlier[i] == events[i]);
        }
        lemma_every_call_enters_a_healthy_engine(job, earlier);
        assert(harmless_call(events[events.len() - 1]));
    }
}

/// Disposing of a job while calls are in flight keeps the engine; the engine
/// goes when the last of those calls has run, and not before.
pub proof fn lemma_engine_outlives_calls_in_flight<E>(job: JobModel<E>, answer: Answer<E>)
    requires
        job.wf(),
        job.keep.in_flight > 0,
    ensures
        !job.keep.last_to_detach(),
        job.after(Event::Dispose).context.engine is Some,
        job.after(Event::Dispose).context.engine == job.context.engine,
        job.keep.in_flight > 1 ==> job.after(Event::Dispose).after(
            Event::WorkerCall(answer),
        ).context.engine is Some,
        job.keep.in_flight == 1 ==> job.after(Event::Dispose).after(
            Event::WorkerCall(answer),
        ).context.engine is None,
        job.keep.in_flight == 1 ==> job.after(Event::Dispose).keep.last_to_release(),
{
}

/// Disposing of a job that has no call in flight lets the engine go at once.
pub proof fn lemma_idle_job_frees_engine_on_dispose<E>(job: JobModel<E>)
    requires
        job.wf(),
        job.keep.in_flight == 0,
    ensures
        job.after(Event::Dispose).context.engine is None,
        !job.after(Event::Dispose).keep.live(),
{
}

/// Disposing twice is disposing once, and only the first time can ask for
/// the engine to be let go.
pub proof fn lemma_dispose_is_idempotent<E>(job: JobModel<E>)
    ensures
        job.after(Event::Dispose).after(Event::Dispose) == job.after(Event::Dispose),
        !job.after(Event::Dispose).keep.last_to_detach(),
{
}

/// The last reference goes once: after anyone was told to be the last, no one
/// is told so again, and the engine, once gone, stays gone.
pub proof fn lemma_engine_is_freed_once<E>(job: JobModel<E>, events: Seq<Event<E>>)
    requires
        !job.keep.live(),
        job.context.engine is None,
    ensures
        !job.after_all(events).keep.live(),
        !job.after_all(events).keep.last_to_detach(),
        !job.after_all(events).keep.last_to_release(),
        job.after_all(events).context.engine is None,
    decreases events.len(),
{
    if events.len() > 0 {
        lemma_engine_is_freed_once(job, events.drop_last());
    }
}

/// After a disposal every call from the host is turned away, and so is every
/// new asynchronous call; none of them reaches the engine.
pub proof fn lemma_disposed_job_turns_calls_away<E>(job: JobModel<E>, answer: Answer<E>)
    ensures
        job.after(Event::Dispose).refusal() is Some,
        !job.context.failed ==> job.after(Event::Dispose).refusal() == Some(ErrorKind::Disposed),
        job.after(Event::Dispose).submission_refusal(true) == Some(ErrorKind::Disposed),
        job.after(Event::Dispose).after(Event::HostCall(answer)) == job.after(Event::Dispose),
        job.after(Event::Dispose).after(Event::Submit) == job.after(Event::Dispose),
{
}

/// A panic in a worker's call to the engine ends that call in an error of
/// class `Panic`, and the next call that a worker picks up for the same
/// context is turned away with `ContextFailed` without reaching the engine.
pub proof fn lemma_worker_panic_rejects_and_sticks<E>(job: JobModel<E>, engine: E, next: Answer<E>)
    requires
        job.worker_refusal() is None,
    ensures
        ({
            let panicked = Event::WorkerCall(Answer { engine, fault: Some(FaultKind::Panic) });
            let after = job.after(panicked);
            &&& job.enters_engine(panicked)
            &&& job.error_of(panicked) == Some(ErrorKind::Panic)
            &&& after.context.failed
            &&& !after.enters_engine(Event::WorkerCall(next))
            &&& after.error_of(Event::WorkerCall(next)) == Some(ErrorKind::ContextFailed)
            &&& !after.enters_engine(Event::HostCall(next))
            &&& after.error_of(Event::HostCall(next)) == Some(ErrorKind::ContextFailed)
        }),
{
}

} // verus!

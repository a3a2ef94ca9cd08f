use vstd::prelude::*;
use crate::listener::EventListener;
use crate::logging::Logger;

verus! {

/// Pipeline-level error wrapping a listener's own processor error `E`.
///
/// Exactly one case is recoverable: a bad argument decoding, which the event
/// loop logs and skips. Every other case ends the loop.
#[derive(Debug, Clone)]
pub enum Error<E> {
    /// A malformed or unexpected event payload. The event loop tolerates
    /// this: the event is skipped and the loop goes on.
    BadArgumentDecoding(E),
    /// Any other failure of a pipeline stage: fatal to the loop.
    Processor(E),
    /// The listener's source ended. Reported as the loop's own completion
    /// condition, distinguishing a source that ended from a stage that
    /// failed.
    Termination,
}

/// A three-stage event pipeline over one listener.
///
/// The stages are pluggable: `pre_process` filters and reshapes a source
/// event (`Ok(None)` filters it out), `process` is the job body, and
/// `post_process` publishes the output. [`event_loop`] drives them.
pub trait EventFlowExecutor<T, Ctx>: EventListener<T, Ctx> {
    type PreprocessedEvent;
    type JobProcessedEvent;

    /// Filters and reshapes one source event. `Ok(None)` means: skip this
    /// event, run no further stage, report no error. A stage never makes the
    /// listener's termination measure grow.
    fn pre_process(&mut self, event: T) -> (r: Result<
        Option<Self::PreprocessedEvent>,
        Error<<Self as EventListener<T, Ctx>>::ProcessorError>,
    >)
        ensures
            final(self).events_remaining() <= old(self).events_remaining(),
    ;

    /// The job body.
    fn process(&mut self, preprocessed_event: Self::PreprocessedEvent) -> (r: Result<
        Self::JobProcessedEvent,
        Error<<Self as EventListener<T, Ctx>>::ProcessorError>,
    >)
        ensures
            final(self).events_remaining() <= old(self).events_remaining(),
    ;

    /// Publishes one job output.
    fn post_process(&mut self, job_output: Self::JobProcessedEvent) -> (r: Result<
        (),
        Error<<Self as EventListener<T, Ctx>>::ProcessorError>,
    >)
        ensures
            final(self).events_remaining() <= old(self).events_remaining(),
    ;
}

/// What the event loop does with one preprocess outcome: the single place
/// the dispatch is decided, shared by every embedding of the pipeline.
pub enum Directive<P, E> {
    /// Run the job body on the preprocessed event, then the postprocessor.
    Execute(P),
    /// The event was filtered out: run no further stage, report nothing.
    Skip,
    /// A bad argument decoding: log a warning, skip the event, go on.
    SkipWarned(E),
    /// A fatal stage failure: end the loop with this error.
    Abort(Error<E>),
}

/// Decides what the loop does with one preprocess outcome: acceptance runs
/// the later stages, a filtered event and a bad argument decoding are
/// skipped (the latter with a warning), everything else ends the loop.
pub fn preprocess_directive<P, E>(outcome: Result<Option<P>, Error<E>>) -> (d: Directive<P, E>)
    ensures
        d == match outcome {
            Ok(Some(p)) => Directive::<P, E>::Execute(p),
            Ok(None) => Directive::<P, E>::Skip,
            Err(Error::BadArgumentDecoding(e)) => Directive::<P, E>::SkipWarned(e),
            Err(e) => Directive::<P, E>::Abort(e),
        },
{
    match outcome {
        Ok(Some(p)) => Directive::Execute(p),
        Ok(None) => Directive::Skip,
        Err(Error::BadArgumentDecoding(e)) => Directive::SkipWarned(e),
        Err(e) => Directive::Abort(e),
    }
}

/// What the event loop did with one fetched event: the stage outcomes it
/// observed, recorded in fetch order.
pub enum FlowStep<T, P, J, E> {
    /// `pre_process` returned `Ok(None)`: the event was filtered out and no
    /// further stage ran.
    Filtered(T),
    /// `pre_process` returned a bad-argument-decoding error: logged and
    /// skipped, the loop went on.
    DecodeSkipped(T, E),
    /// All three stages succeeded.
    Completed(T, P, J),
    /// `pre_process` failed with a fatal error, which ended the loop.
    PreFailed(T, Error<E>),
    /// The job body failed; its error ended the loop.
    ExecFailed(T, P, Error<E>),
    /// `post_process` failed; its error ended the loop.
    PostFailed(T, P, J, Error<E>),
}

impl<T, P, J, E> FlowStep<T, P, J, E> {
    /// The fetched event this step processed.
    pub open spec fn event(self) -> T {
        match self {
            FlowStep::Filtered(e) => e,
            FlowStep::DecodeSkipped(e, _) => e,
            FlowStep::Completed(e, _, _) => e,
            FlowStep::PreFailed(e, _) => e,
            FlowStep::ExecFailed(e, _, _) => e,
            FlowStep::PostFailed(e, _, _, _) => e,
        }
    }

    /// The preprocessor accepted the event: it returned `Ok(Some(..))`.
    pub open spec fn accepted(self) -> bool {
        match self {
            FlowStep::Completed(_, _, _) => true,
            FlowStep::ExecFailed(_, _, _) => true,
            FlowStep::PostFailed(_, _, _, _) => true,
            _ => false,
        }
    }

    /// The job body ran for this event.
    pub open spec fn executed(self) -> bool {
        match self {
            FlowStep::Completed(_, _, _) => true,
            FlowStep::ExecFailed(_, _, _) => true,
            FlowStep::PostFailed(_, _, _, _) => true,
            _ => false,
        }
    }

    /// This step ended the loop with an error.
    pub open spec fn aborting(self) -> bool {
        match self {
            FlowStep::PreFailed(_, _) => true,
            FlowStep::ExecFailed(_, _, _) => true,
            FlowStep::PostFailed(_, _, _, _) => true,
            _ => false,
        }
    }

    /// The error an aborting step ended the loop with.
    pub open spec fn abort_error(self) -> Error<E>
        recommends
            self.aborting(),
    {
        match self {
            FlowStep::PreFailed(_, err) => err,
            FlowStep::ExecFailed(_, _, err) => err,
            FlowStep::PostFailed(_, _, _, err) => err,
            FlowStep::Filtered(_) => Error::Termination,
            FlowStep::DecodeSkipped(_, _) => Error::Termination,
            FlowStep::Completed(_, _, _) => Error::Termination,
        }
    }
}

/// A trace the event loop can produce: only its last step, if any, ended
/// the loop.
pub open spec fn wf_flow_trace<T, P, J, E>(t: Seq<FlowStep<T, P, J, E>>) -> bool {
    forall|i: int| 0 <= i < t.len() - 1 ==> !(#[trigger] t[i]).aborting()
}

/// The condition the loop ends with for a given trace: the last step's
/// error where one aborted, else the end-of-stream condition.
pub open spec fn flow_result<T, P, J, E>(t: Seq<FlowStep<T, P, J, E>>) -> Error<E> {
    if t.len() > 0 && t.last().aborting() {
        t.last().abort_error()
    } else {
        Error::Termination
    }
}

/// The steps whose event reached the job body, in fetch order.
pub open spec fn executed_steps<T, P, J, E>(t: Seq<FlowStep<T, P, J, E>>) -> Seq<
    FlowStep<T, P, J, E>,
> {
    t.filter(|s: FlowStep<T, P, J, E>| s.executed())
}

/// The events the job body ran for, in fetch order.
pub open spec fn executed_events<T, P, J, E>(t: Seq<FlowStep<T, P, J, E>>) -> Seq<T> {
    executed_steps(t).map_values(|s: FlowStep<T, P, J, E>| s.event())
}

/// Which position in [`executed_events`] the step at position `k` of the
/// trace fills: the number of executed steps fetched before it.
pub open spec fn executed_rank<T, P, J, E>(t: Seq<FlowStep<T, P, J, E>>, k: int) -> int {
    executed_steps(t.take(k)).len() as int
}

/// Law: an event the preprocessor filtered out (`pre_process` returned
/// `Ok(None)`) is never handed to the job body nor to the postprocessor: a
/// filtered step carries no job-stage outcome and counts as not executed.
pub proof fn lemma_filtered_never_executed<T, P, J, E>(t: Seq<FlowStep<T, P, J, E>>)
    ensures
        forall|k: int|
            0 <= k < t.len() && (#[trigger] t[k]) is Filtered
                ==> !t[k].accepted() && !t[k].executed(),
{
}

/// Law: a bad-argument-decoding failure never ends the event loop. In a
/// well-formed trace it is therefore never the step the loop stopped at
/// when the loop ended with an error.
pub proof fn lemma_decode_skip_recoverable<T, P, J, E>(t: Seq<FlowStep<T, P, J, E>>)
    ensures
        forall|k: int| 0 <= k < t.len() && (#[trigger] t[k]) is DecodeSkipped ==> !t[k].aborting(),
        wf_flow_trace(t) && t.len() > 0 && !(flow_result(t) is Termination) ==> !(t.last()
            is DecodeSkipped),
{
}

proof fn lemma_executed_take_step<T, P, J, E>(t: Seq<FlowStep<T, P, J, E>>, k: int)
    requires
        0 <= k < t.len(),
    ensures
        t[k].executed() ==> executed_steps(t.take(k + 1)) == executed_steps(t.take(k)).push(t[k]),
        !t[k].executed() ==> executed_steps(t.take(k + 1)) == executed_steps(t.take(k)),
{
    reveal(Seq::filter);
    assert(t.take(k + 1).drop_last() =~= t.take(k));
    assert(t.take(k + 1).last() == t[k]);
}

proof fn lemma_rank_stable<T, P, J, E>(t: Seq<FlowStep<T, P, J, E>>, k: int, m: int)
    requires
        0 <= k < m <= t.len(),
        t[k].executed(),
    ensures
        0 <= executed_rank(t, k) < executed_steps(t.take(m)).len(),
        executed_steps(t.take(m))[executed_rank(t, k)] == t[k],
    decreases m - k,
{
    if m == k + 1 {
        lemma_executed_take_step(t, k);
    } else {
        lemma_rank_stable(t, k, m - 1);
        lemma_executed_take_step(t, m - 1);
    }
}

proof fn lemma_rank_bounded<T, P, J, E>(t: Seq<FlowStep<T, P, J, E>>, j: int, k: int)
    requires
        0 <= j <= k <= t.len(),
    ensures
        executed_steps(t.take(j)).len() <= executed_steps(t.take(k)).len(),
    decreases k - j,
{
    if j < k {
        lemma_rank_bounded(t, j, k - 1);
        lemma_executed_take_step(t, k - 1);
    }
}

/// Law: events are delivered to the job body in exactly the order the
/// listener produced them. The step at trace position `k`, if executed,
/// supplies entry [`executed_rank`]`(t, k)` of [`executed_events`], and the
/// rank grows strictly along the fetch order, so no pair of executed events
/// is ever swapped or run twice.
pub proof fn lemma_execution_preserves_order<T, P, J, E>(t: Seq<FlowStep<T, P, J, E>>)
    ensures
        executed_events(t).len() == executed_steps(t).len(),
        forall|k: int|
            0 <= k < t.len() && (#[trigger] t[k]).executed() ==> 0 <= executed_rank(t, k)
                < executed_events(t).len()
                && executed_events(t)[executed_rank(t, k)] == t[k].event(),
        forall|j: int, k: int|
            0 <= j < k < t.len() && t[j].executed() && t[k].executed()
                ==> #[trigger] executed_rank(t, j) < #[trigger] executed_rank(t, k),
{
    assert(t.take(t.len() as int) =~= t);
    assert forall|k: int| 0 <= k < t.len() && (#[trigger] t[k]).executed() implies 0
        <= executed_rank(t, k) < executed_events(t).len()
        && executed_events(t)[executed_rank(t, k)] == t[k].event() by {
        lemma_rank_stable(t, k, t.len() as int);
    }
    assert forall|j: int, k: int|
        0 <= j < k < t.len() && t[j].executed() && t[k].executed() implies #[trigger] executed_rank(
        t,
        j,
    ) < #[trigger] executed_rank(t, k) by {
        lemma_rank_stable(t, j, j + 1);
        lemma_rank_bounded(t, j + 1, k);
    }
}

/// Drives one listener's event loop to completion.
///
/// Repeatedly fetches `next_event`; `None` ends the loop with
/// [`Error::Termination`]. Each event runs through the stages as
/// [`preprocess_directive`] decides: a filtered event is skipped, a
/// bad-argument-decoding failure is logged as a warning and skipped, any
/// other stage error ends the loop with that error. No stage is retried
/// and no event is processed out of order.
///
/// Besides the result, the loop returns the (ghost) trace of what it did:
/// the result is exactly [`flow_result`] of that trace, the trace is
/// well-formed, and the recorded step shapes tie each event's stages to its
/// preprocess outcome.
pub fn event_loop<T, Ctx, X: EventFlowExecutor<T, Ctx>, L: Logger>(x: &mut X, logger: &mut L) -> (r: (
    Result<(), Error<<X as EventListener<T, Ctx>>::ProcessorError>>,
    Ghost<
        Seq<
            FlowStep<
                T,
                X::PreprocessedEvent,
                X::JobProcessedEvent,
                <X as EventListener<T, Ctx>>::ProcessorError,
            >,
        >,
    >,
))
    ensures
        wf_flow_trace(r.1@),
        r.0 == Err::<(), Error<<X as EventListener<T, Ctx>>::ProcessorError>>(flow_result(r.1@)),
{
    let ghost mut trace: Seq<
        FlowStep<
            T,
            X::PreprocessedEvent,
            X::JobProcessedEvent,
            <X as EventListener<T, Ctx>>::ProcessorError,
        >,
    > = Seq::empty();
    loop
        invariant
            forall|i: int| 0 <= i < trace.len() ==> !(#[trigger] trace[i]).aborting(),
        decreases x.events_remaining(),
    {
        let next = x.next_event();
        match next {
            None => {
                return (Err(Error::Termination), Ghost(trace));
            },
            Some(event) => {
                let ghost g_event = event;
                let outcome = x.pre_process(event);
                match preprocess_directive(outcome) {
                    Directive::Execute(pre) => {
                        let ghost g_pre = pre;
                        match x.process(pre) {
                            Ok(out) => {
                                let ghost g_out = out;
                                match x.post_process(out) {
                                    Ok(_) => {
                                        proof {
                                            trace = trace.push(
                                                FlowStep::Completed(g_event, g_pre, g_out),
                                            );
                                        }
                                    },
                                    Err(err) => {
                                        let ghost g_err = err;
                                        proof {
                                            trace = trace.push(
                                                FlowStep::PostFailed(g_event, g_pre, g_out, g_err),
                                            );
                                        }
                                        return (Err(err), Ghost(trace));
                                    },
                                }
                            },
                            Err(err) => {
                                let ghost g_err = err;
                                proof {
                                    trace = trace.push(
                                        FlowStep::ExecFailed(g_event, g_pre, g_err),
                                    );
                                }
                                return (Err(err), Ghost(trace));
                            },
                        }
                    },
                    Directive::Skip => {
                        proof {
                            trace = trace.push(FlowStep::Filtered(g_event));
                        }
                    },
                    Directive::SkipWarned(decode_err) => {
                        logger.warn("bad argument decoding; skipping the event");
                        proof {
                            trace = trace.push(FlowStep::DecodeSkipped(g_event, decode_err));
                        }
                    },
                    Directive::Abort(err) => {
                        let ghost g_err = err;
                        proof {
                            trace = trace.push(FlowStep::PreFailed(g_event, g_err));
                        }
                        return (Err(err), Ghost(trace));
                    },
                }
            },
        }
    }
}

} // verus!

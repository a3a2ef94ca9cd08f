use vstd::prelude::*;
use crate::listener::EventListener;
use crate::pipeline::{Error, EventFlowExecutor};

verus! {

/// What the stages are scripted to do with one event of a [`ScriptedFlow`].
#[derive(Debug, Clone, Copy, PartialEq, Eq, Structural)]
pub enum StagePlan {
    /// The preprocessor accepts the event; the later stages succeed.
    Deliver,
    /// The preprocessor filters the event out.
    Filter,
    /// The preprocessor reports a bad argument decoding.
    BadDecode,
    /// The preprocessor fails fatally.
    Fail,
}

/// The events of a script that reach the job body, in order: those planned
/// for delivery, up to the first fatally-planned event.
pub open spec fn scripted_executed(script: Seq<(u64, StagePlan)>) -> Seq<u64>
    decreases script.len(),
{
    if script.len() == 0 {
        Seq::empty()
    } else {
        match script[0].1 {
            StagePlan::Deliver => seq![script[0].0] + scripted_executed(script.skip(1)),
            StagePlan::Filter => scripted_executed(script.skip(1)),
            StagePlan::BadDecode => scripted_executed(script.skip(1)),
            StagePlan::Fail => Seq::empty(),
        }
    }
}

/// The condition a run of the script ends with: the first fatally-planned
/// event's error, else the end-of-stream condition.
pub open spec fn scripted_result(script: Seq<(u64, StagePlan)>) -> Error<u64>
    decreases script.len(),
{
    if script.len() == 0 {
        Error::Termination
    } else {
        match script[0].1 {
            StagePlan::Fail => Error::Processor(script[0].0),
            _ => scripted_result(script.skip(1)),
        }
    }
}

/// How many of a script's events are planned for delivery.
pub open spec fn delivered_count(script: Seq<(u64, StagePlan)>) -> nat
    decreases script.len(),
{
    if script.len() == 0 {
        0
    } else {
        (if script[0].1 is Deliver {
            1nat
        } else {
            0nat
        }) + delivered_count(script.skip(1))
    }
}

/// A deterministic pipeline over a scripted queue of events, each with the
/// stage outcome it is meant to produce: the library's own implementation
/// of the executor capabilities, held to their contracts. The job body
/// passes events through and keeps a record, so a driver can see what ran.
///
/// The per-event error type is the event itself.
pub struct ScriptedFlow {
    /// The events still to yield, oldest first, each with its plan.
    pub pending: Vec<(u64, StagePlan)>,
    /// The plan of the event yielded last.
    pub current: Option<StagePlan>,
    /// The events the job body ran for, in order.
    pub executed: Vec<u64>,
    /// The outputs the postprocessor published, in order.
    pub posted: Vec<u64>,
}

impl ScriptedFlow {
    /// A flow at the start of the given script: nothing yielded, run or
    /// published yet.
    pub fn from_script(script: &Vec<(u64, StagePlan)>) -> (r: Self)
        ensures
            r.pending@ == script@,
            r.current is None,
            r.executed@ == Seq::<u64>::empty(),
            r.posted@ == Seq::<u64>::empty(),
    {
        let mut pending: Vec<(u64, StagePlan)> = Vec::new();
        let mut i: usize = 0;
        while i < script.len()
            invariant
                i <= script@.len(),
                pending@ == script@.take(i as int),
            decreases script@.len() - i,
        {
            pending.push(script[i]);
            assert(pending@ =~= script@.take(i + 1));
            i = i + 1;
        }
        assert(pending@ =~= script@);
        ScriptedFlow { pending, current: None, executed: Vec::new(), posted: Vec::new() }
    }

    /// Takes the next scripted event, remembering its plan for the
    /// preprocessor.
    fn take_event(&mut self) -> (r: Option<u64>)
        ensures
            old(self).pending@.len() == 0 ==> r is None && *final(self) == *old(self),
            old(self).pending@.len() > 0 ==> {
                &&& r == Some(old(self).pending@[0].0)
                &&& final(self).pending@ == old(self).pending@.skip(1)
                &&& final(self).current == Some(old(self).pending@[0].1)
                &&& final(self).executed@ == old(self).executed@
                &&& final(self).posted@ == old(self).posted@
            },
    {
        if self.pending.len() == 0 {
            None
        } else {
            let (event, plan) = self.pending.remove(0);
            self.current = Some(plan);
            Some(event)
        }
    }

    /// What the preprocessor does with the current event: exactly what its
    /// plan says; an event without a remembered plan is delivered.
    fn apply_pre(&mut self, event: u64) -> (r: Result<Option<u64>, Error<u64>>)
        ensures
            final(self).pending@ == old(self).pending@,
            final(self).executed@ == old(self).executed@,
            final(self).posted@ == old(self).posted@,
            final(self).current is None,
            r == match old(self).current {
                Some(StagePlan::Filter) => Ok::<Option<u64>, Error<u64>>(None),
                Some(StagePlan::BadDecode) => Err::<Option<u64>, Error<u64>>(
                    Error::BadArgumentDecoding(event),
                ),
                Some(StagePlan::Fail) => Err::<Option<u64>, Error<u64>>(Error::Processor(event)),
                _ => Ok::<Option<u64>, Error<u64>>(Some(event)),
            },
    {
        let plan = match self.current.take() {
            Some(plan) => plan,
            None => StagePlan::Deliver,
        };
        match plan {
            StagePlan::Deliver => Ok(Some(event)),
            StagePlan::Filter => Ok(None),
            StagePlan::BadDecode => Err(Error::BadArgumentDecoding(event)),
            StagePlan::Fail => Err(Error::Processor(event)),
        }
    }

    /// The job body: passes the event through and records it.
    fn apply_process(&mut self, preprocessed_event: u64) -> (r: Result<u64, Error<u64>>)
        ensures
            final(self).pending@ == old(self).pending@,
            final(self).current == old(self).current,
            final(self).posted@ == old(self).posted@,
            final(self).executed@ == old(self).executed@.push(preprocessed_event),
            r == Ok::<u64, Error<u64>>(preprocessed_event),
    {
        self.executed.push(preprocessed_event);
        Ok(preprocessed_event)
    }

    /// The postprocessor: records the published output.
    fn apply_post(&mut self, job_output: u64) -> (r: Result<(), Error<u64>>)
        ensures
            final(self).pending@ == old(self).pending@,
            final(self).current == old(self).current,
            final(self).executed@ == old(self).executed@,
            final(self).posted@ == old(self).posted@.push(job_output),
            r == Ok::<(), Error<u64>>(()),
    {
        self.posted.push(job_output);
        Ok(())
    }
}

impl EventListener<u64, Vec<(u64, StagePlan)>> for ScriptedFlow {
    type ProcessorError = u64;

    open spec fn events_remaining(&self) -> nat {
        self.pending@.len()
    }

    fn construct(context: &Vec<(u64, StagePlan)>) -> Result<Self, Error<u64>> {
        Ok(ScriptedFlow::from_script(context))
    }

    fn next_event(&mut self) -> (r: Option<u64>)
        ensures
            r is Some ==> final(self).events_remaining() < old(self).events_remaining(),
    {
        self.take_event()
    }
}

impl EventFlowExecutor<u64, Vec<(u64, StagePlan)>> for ScriptedFlow {
    type PreprocessedEvent = u64;
    type JobProcessedEvent = u64;

    fn pre_process(&mut self, event: u64) -> (r: Result<Option<u64>, Error<u64>>)
        ensures
            final(self).events_remaining() <= old(self).events_remaining(),
    {
        self.apply_pre(event)
    }

    fn process(&mut self, preprocessed_event: u64) -> (r: Result<u64, Error<u64>>)
        ensures
            final(self).events_remaining() <= old(self).events_remaining(),
    {
        self.apply_process(preprocessed_event)
    }

    fn post_process(&mut self, job_output: u64) -> (r: Result<(), Error<u64>>)
        ensures
            final(self).events_remaining() <= old(self).events_remaining(),
    {
        self.apply_post(job_output)
    }
}

/// Runs one scripted flow to completion under the pipeline's dispatch
/// rules. The contract is exact: which events reach the job body, what is
/// published and how the run ends are functions of the script alone, so
/// the per-event counts of a concrete scenario are fixed by this contract.
pub fn run_scripted(script: &Vec<(u64, StagePlan)>) -> (r: (ScriptedFlow, Result<(), Error<u64>>))
    ensures
        r.0.executed@ == scripted_executed(script@),
        r.0.posted@ == scripted_executed(script@),
        r.1 == Err::<(), Error<u64>>(scripted_result(script@)),
{
    let mut flow = ScriptedFlow::from_script(script);
    loop
        invariant
            flow.current is None,
            flow.posted@ == flow.executed@,
            scripted_executed(script@) == flow.executed@ + scripted_executed(flow.pending@),
            scripted_result(script@) == scripted_result(flow.pending@),
        decreases flow.pending@.len(),
    {
        let ghost pending_before = flow.pending@;
        let ghost executed_before = flow.executed@;
        let next = flow.take_event();
        match next {
            None => {
                proof {
                    assert(flow.executed@ + scripted_executed(flow.pending@) =~= flow.executed@);
                }
                return (flow, Err(Error::Termination));
            },
            Some(event) => {
                match flow.apply_pre(event) {
                    Ok(Some(pre)) => {
                        match flow.apply_process(pre) {
                            Ok(out) => {
                                match flow.apply_post(out) {
                                    Ok(_) => {},
                                    Err(e) => {
                                        return (flow, Err(e));
                                    },
                                }
                            },
                            Err(e) => {
                                return (flow, Err(e));
                            },
                        }
                        proof {
                            assert(pending_before[0].1 is Deliver);
                            assert(scripted_executed(pending_before) =~= seq![event]
                                + scripted_executed(flow.pending@));
                            assert(executed_before + scripted_executed(pending_before)
                                =~= flow.executed@ + scripted_executed(flow.pending@));
                        }
                    },
                    Ok(None) => {
                        proof {
                            assert(pending_before[0].1 is Filter);
                        }
                    },
                    Err(e) => {
                        match e {
                            Error::BadArgumentDecoding(_) => {
                                proof {
                                    assert(pending_before[0].1 is BadDecode);
                                }
                            },
                            other => {
                                proof {
                                    assert(pending_before[0].1 is Fail);
                                    assert(flow.executed@ + scripted_executed(pending_before)
                                        =~= flow.executed@);
                                }
                                return (flow, Err(other));
                            },
                        }
                    },
                }
            },
        }
    }
}

/// Law: when every event of a script is planned for delivery, the job body
/// runs exactly once per event, in script order, and the run ends at
/// end-of-stream — three events give exactly three executions.
pub proof fn lemma_full_delivery_executes_every_event(script: Seq<(u64, StagePlan)>)
    requires
        forall|i: int| 0 <= i < script.len() ==> (#[trigger] script[i]).1 is Deliver,
    ensures
        scripted_executed(script) == script.map_values(|entry: (u64, StagePlan)| entry.0),
        scripted_result(script) is Termination,
    decreases script.len(),
{
    let events = script.map_values(|entry: (u64, StagePlan)| entry.0);
    if script.len() == 0 {
        assert(scripted_executed(script) =~= events);
    } else {
        let rest = script.skip(1);
        assert forall|i: int| 0 <= i < rest.len() implies (#[trigger] rest[i]).1 is Deliver by {
            assert(rest[i] == script[i + 1]);
        }
        lemma_full_delivery_executes_every_event(rest);
        assert(scripted_executed(script) =~= events);
    }
}

/// Law: a script without a fatally-planned event runs to end-of-stream,
/// and the job body runs exactly once per delivered event — an event
/// planned to be filtered out or to fail decoding contributes nothing.
pub proof fn lemma_only_delivered_events_execute(script: Seq<(u64, StagePlan)>)
    requires
        forall|i: int| 0 <= i < script.len() ==> !((#[trigger] script[i]).1 is Fail),
    ensures
        scripted_result(script) is Termination,
        scripted_executed(script).len() == delivered_count(script),
    decreases script.len(),
{
    if script.len() > 0 {
        let rest = script.skip(1);
        assert forall|i: int| 0 <= i < rest.len() implies !((#[trigger] rest[i]).1 is Fail) by {
            assert(rest[i] == script[i + 1]);
        }
        lemma_only_delivered_events_execute(rest);
    }
}

} // verus!

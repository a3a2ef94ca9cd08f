use std::cell::RefCell;
use std::rc::Rc;

use blueprint_runner::listener::EventListener;
use blueprint_runner::logging::NoopLogger;
use blueprint_runner::pipeline::{event_loop, Error, EventFlowExecutor};
use blueprint_runner::scripted::{run_scripted, ScriptedFlow, StagePlan};

/// A flow over scripted preprocess outcomes: each event carries its own
/// plan. `process` records the events it was handed.
struct PlannedFlow {
    pending: Vec<(u64, Plan)>,
    executed: Rc<RefCell<Vec<u64>>>,
    posted: Rc<RefCell<Vec<u64>>>,
    plan: Option<Plan>,
    post_fails: Vec<u64>,
}

#[derive(Clone, Copy)]
enum Plan {
    Accept,
    Filter,
    BadDecode,
    Fatal,
}

impl PlannedFlow {
    fn new(pending: Vec<(u64, Plan)>) -> Self {
        PlannedFlow {
            pending,
            executed: Rc::new(RefCell::new(Vec::new())),
            posted: Rc::new(RefCell::new(Vec::new())),
            plan: None,
            post_fails: Vec::new(),
        }
    }
}

impl EventListener<u64, ()> for PlannedFlow {
    type ProcessorError = String;

    fn construct(_context: &()) -> Result<Self, Error<String>> {
        Ok(PlannedFlow::new(Vec::new()))
    }

    fn next_event(&mut self) -> Option<u64> {
        if self.pending.is_empty() {
            None
        } else {
            let (event, plan) = self.pending.remove(0);
            self.plan = Some(plan);
            Some(event)
        }
    }
}

impl EventFlowExecutor<u64, ()> for PlannedFlow {
    type PreprocessedEvent = u64;
    type JobProcessedEvent = u64;

    fn pre_process(&mut self, event: u64) -> Result<Option<u64>, Error<String>> {
        match self.plan.take().unwrap_or(Plan::Accept) {
            Plan::Accept => Ok(Some(event)),
            Plan::Filter => Ok(None),
            Plan::BadDecode => Err(Error::BadArgumentDecoding(format!("garbled event {event}"))),
            Plan::Fatal => Err(Error::Processor(format!("fatal at event {event}"))),
        }
    }

    fn process(&mut self, preprocessed_event: u64) -> Result<u64, Error<String>> {
        self.executed.borrow_mut().push(preprocessed_event);
        Ok(preprocessed_event)
    }

    fn post_process(&mut self, job_output: u64) -> Result<(), Error<String>> {
        if self.post_fails.contains(&job_output) {
            Err(Error::Processor(format!("could not publish {job_output}")))
        } else {
            self.posted.borrow_mut().push(job_output);
            Ok(())
        }
    }
}

fn drive(flow: &mut PlannedFlow) -> Result<(), Error<String>> {
    let (outcome, _) = event_loop::<u64, (), PlannedFlow, NoopLogger>(flow, &mut NoopLogger);
    outcome
}

/// An exhausted source ends the loop with the termination condition.
#[test]
fn empty_stream_terminates() {
    let mut flow = PlannedFlow::new(vec![]);
    assert!(matches!(drive(&mut flow), Err(Error::Termination)));
}

/// Events reach the job body in the exact order the listener produced them.
#[test]
fn events_execute_in_fetch_order() {
    let mut flow = PlannedFlow::new(vec![
        (10, Plan::Accept),
        (30, Plan::Accept),
        (20, Plan::Accept),
    ]);
    let executed = flow.executed.clone();
    assert!(matches!(drive(&mut flow), Err(Error::Termination)));
    assert_eq!(*executed.borrow(), vec![10, 30, 20]);
}

/// A filtered event runs no further stage.
#[test]
fn filtered_event_runs_no_stage() {
    let mut flow = PlannedFlow::new(vec![
        (1, Plan::Accept),
        (2, Plan::Filter),
        (3, Plan::Accept),
    ]);
    let executed = flow.executed.clone();
    let posted = flow.posted.clone();
    assert!(matches!(drive(&mut flow), Err(Error::Termination)));
    assert_eq!(*executed.borrow(), vec![1, 3]);
    assert_eq!(*posted.borrow(), vec![1, 3]);
}

/// A decode failure on one event never stops the ones after it.
#[test]
fn decode_failure_skips_only_its_event() {
    let mut flow = PlannedFlow::new(vec![
        (1, Plan::Accept),
        (2, Plan::BadDecode),
        (3, Plan::Accept),
        (4, Plan::Accept),
    ]);
    let executed = flow.executed.clone();
    assert!(matches!(drive(&mut flow), Err(Error::Termination)));
    assert_eq!(*executed.borrow(), vec![1, 3, 4]);
}

/// Any other preprocess failure ends the loop with that error; later events
/// are never fetched.
#[test]
fn fatal_preprocess_failure_ends_the_loop() {
    let mut flow = PlannedFlow::new(vec![
        (1, Plan::Accept),
        (2, Plan::Fatal),
        (3, Plan::Accept),
    ]);
    let executed = flow.executed.clone();
    let outcome = drive(&mut flow);
    match outcome {
        Err(Error::Processor(message)) => assert_eq!(message, "fatal at event 2"),
        other => panic!("expected the fatal error, got {other:?}"),
    }
    assert_eq!(*executed.borrow(), vec![1]);
}

/// A postprocess failure ends the loop with that error.
#[test]
fn postprocess_failure_ends_the_loop() {
    let mut flow = PlannedFlow::new(vec![
        (1, Plan::Accept),
        (2, Plan::Accept),
        (3, Plan::Accept),
    ]);
    flow.post_fails = vec![2];
    let executed = flow.executed.clone();
    let posted = flow.posted.clone();
    let outcome = drive(&mut flow);
    match outcome {
        Err(Error::Processor(message)) => assert_eq!(message, "could not publish 2"),
        other => panic!("expected the publish error, got {other:?}"),
    }
    assert_eq!(*executed.borrow(), vec![1, 2], "the third event was never reached");
    assert_eq!(*posted.borrow(), vec![1]);
}

/// The library's own scripted flow, driven by the verified loop, follows
/// its script: filtered and garbled events are skipped, the rest run.
#[test]
fn scripted_flow_runs_its_script() {
    let script = vec![
        (1u64, StagePlan::Deliver),
        (2u64, StagePlan::Filter),
        (3u64, StagePlan::BadDecode),
        (4u64, StagePlan::Deliver),
    ];
    let mut flow =
        <ScriptedFlow as EventListener<u64, Vec<(u64, StagePlan)>>>::construct(&script).unwrap();
    let (outcome, _) =
        event_loop::<u64, Vec<(u64, StagePlan)>, ScriptedFlow, NoopLogger>(&mut flow, &mut NoopLogger);
    assert!(matches!(outcome, Err(Error::Termination)));
    assert_eq!(flow.executed, vec![1, 4]);
    assert_eq!(flow.posted, vec![1, 4]);
}

/// A scripted fatal event ends the loop with that event as the error.
#[test]
fn scripted_flow_stops_at_a_fatal_event() {
    let script = vec![
        (1u64, StagePlan::Deliver),
        (2u64, StagePlan::Fail),
        (3u64, StagePlan::Deliver),
    ];
    let mut flow =
        <ScriptedFlow as EventListener<u64, Vec<(u64, StagePlan)>>>::construct(&script).unwrap();
    let (outcome, _) =
        event_loop::<u64, Vec<(u64, StagePlan)>, ScriptedFlow, NoopLogger>(&mut flow, &mut NoopLogger);
    assert!(matches!(outcome, Err(Error::Processor(2))));
    assert_eq!(flow.executed, vec![1]);
}

/// The exactly-specified scripted driver: which events run, what is
/// published and how the run ends are fixed by the script.
#[test]
fn run_scripted_pins_the_counts() {
    let script = vec![
        (1u64, StagePlan::Deliver),
        (2u64, StagePlan::Filter),
        (3u64, StagePlan::Deliver),
    ];
    let (flow, outcome) = run_scripted(&script);
    assert!(matches!(outcome, Err(Error::Termination)));
    assert_eq!(flow.executed, vec![1, 3], "the job body ran exactly twice");
    assert_eq!(flow.posted, vec![1, 3]);

    let failing = vec![
        (1u64, StagePlan::Deliver),
        (2u64, StagePlan::BadDecode),
        (3u64, StagePlan::Fail),
        (4u64, StagePlan::Deliver),
    ];
    let (flow, outcome) = run_scripted(&failing);
    assert!(matches!(outcome, Err(Error::Processor(3))));
    assert_eq!(flow.executed, vec![1]);
}

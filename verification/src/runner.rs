use vstd::prelude::*;
use crate::config::GadgetConfiguration;
use crate::error::RunnerError;
use crate::logging::Logger;

verus! {

/// The protocol-registration adapter: one implementation per restaking
/// protocol. The runner queries [`Self::requires_registration`] and calls
/// [`Self::register`] only when the query reports the operator unregistered.
///
/// Every adapter must cross-check that the environment's protocol settings
/// match its own protocol and fail with
/// [`RunnerError::InvalidProtocol`] otherwise.
pub trait BlueprintConfig {
    /// The protocol this adapter serves, where it names one: such an adapter
    /// promises the typed mismatch error on foreign settings. The default —
    /// no named protocol — promises nothing.
    open spec fn protocol(&self) -> Option<crate::config::Protocol> {
        None
    }

    /// Whether the operator still has to register for this protocol.
    fn requires_registration(&self, env: &GadgetConfiguration) -> (r: Result<bool, RunnerError>)
        ensures
            self.protocol() matches Some(p) ==> (!crate::config::settings_match(
                env.protocol_settings,
                p,
            ) ==> (r matches Err(RunnerError::InvalidProtocol(_)))),
    ;

    /// The one-time on-chain registration.
    fn register(&self, env: &GadgetConfiguration) -> (r: Result<(), RunnerError>)
        ensures
            self.protocol() matches Some(p) ==> (!crate::config::settings_match(
                env.protocol_settings,
                p,
            ) ==> (r matches Err(RunnerError::InvalidProtocol(_)))),
    ;
}

/// A single-use completion signal: fires exactly once, with the result of
/// the task it belongs to.
pub trait CompletionSignal: Sized {
    /// Waits until the signal fires and hands out the task's result.
    /// An implementation reports a sender that vanished without firing as
    /// [`RunnerError::Recv`].
    fn wait(self) -> Result<(), RunnerError>;
}

/// An auxiliary long-running task not tied to an event stream.
pub trait BackgroundService {
    type Signal: CompletionSignal;

    /// Starts the task and hands out its completion signal. A start failure
    /// aborts the runner before anything else is spawned.
    fn start(&self) -> Result<Self::Signal, RunnerError>;
}

/// The uniform job capability: initialize, spawning the job's event loop,
/// and hand out a single completion signal. A job may decline to start by
/// returning `None`; the runner then treats it as immediately, successfully
/// complete.
pub trait InitializableEventHandler {
    type Signal: CompletionSignal;

    fn init_event_handler(&self) -> Option<Self::Signal>;
}

/// What one call of [`BlueprintRunner::run`] observed, recorded for the
/// contract: the registration outcomes, each service start, each job
/// initialization, and each completion signal waited for.
pub struct RunnerTrace {
    /// What `requires_registration` returned.
    pub queried: Result<bool, RunnerError>,
    /// What `register` returned; `None` when it was never called.
    pub registered: Option<Result<(), RunnerError>>,
    /// The outcome of each `start` call, in order.
    pub services_started: Seq<Result<(), RunnerError>>,
    /// For each job in order, whether `init_event_handler` yielded a signal.
    pub jobs_inited: Seq<bool>,
    /// The result each awaited completion signal carried, in wait order.
    pub waited: Seq<Result<(), RunnerError>>,
}

/// How many jobs of a run yielded a completion signal.
pub open spec fn count_true(s: Seq<bool>) -> nat {
    s.filter(|b: bool| b).len()
}

/// The registration step let the run proceed: registration was not needed,
/// or it succeeded.
pub open spec fn registration_cleared(tr: RunnerTrace) -> bool {
    ||| tr.queried == Ok::<bool, RunnerError>(false)
    ||| (tr.queried == Ok::<bool, RunnerError>(true) && tr.registered == Some(
        Ok::<(), RunnerError>(()),
    ))
}

/// No task was ever started and no signal awaited.
pub open spec fn no_tasks_started(tr: RunnerTrace) -> bool {
    tr.services_started.len() == 0 && tr.jobs_inited.len() == 0 && tr.waited.len() == 0
}

/// The contract of [`BlueprintRunner::run`], over what the call observed:
///
/// - `register` is called exactly when the query reports `true`;
/// - a query or registration failure is returned as is, with no task started;
/// - next, services are started in order until the first start failure,
///   which is returned as is with no job initialized and nothing awaited;
/// - when every service started, every job is initialized, one completion
///   signal per started task is awaited, and the run returns `Ok(())`
///   whatever the awaited results were.
pub open spec fn runner_run_matches(
    tr: RunnerTrace,
    n_services: nat,
    n_jobs: nat,
    r: Result<(), RunnerError>,
) -> bool {
    &&& (tr.registered is Some <==> tr.queried == Ok::<bool, RunnerError>(true))
    &&& (tr.queried matches Err(e) ==> r == Err::<(), RunnerError>(e) && no_tasks_started(tr))
    &&& (tr.registered matches Some(g) ==> (g matches Err(e) ==> r == Err::<(), RunnerError>(e)
        && no_tasks_started(tr)))
    &&& !registration_cleared(tr) ==> no_tasks_started(tr)
    &&& registration_cleared(tr) ==> {
        &&& tr.services_started.len() <= n_services
        &&& forall|i: int|
            0 <= i < tr.services_started.len() - 1 ==> (#[trigger] tr.services_started[i]) is Ok
        &&& if tr.services_started.len() > 0 && tr.services_started.last() is Err {
            &&& r == Err::<(), RunnerError>(tr.services_started.last()->Err_0)
            &&& tr.jobs_inited.len() == 0
            &&& tr.waited.len() == 0
        } else {
            &&& tr.services_started.len() == n_services
            &&& tr.jobs_inited.len() == n_jobs
            &&& tr.waited.len() == n_services + count_true(tr.jobs_inited)
            &&& r == Ok::<(), RunnerError>(())
        }
    }
}

proof fn lemma_count_true_push(s: Seq<bool>, b: bool)
    ensures
        count_true(s.push(b)) == count_true(s) + if b {
            1nat
        } else {
            0nat
        },
{
    reveal(Seq::filter);
    assert(s.push(b).drop_last() =~= s);
    assert(s.push(b).last() == b);
}

/// Law: when registration fails — or already the registration query — no
/// job and no background-service task is ever started, and the run returns
/// exactly that failure.
pub proof fn lemma_failed_registration_starts_nothing(
    tr: RunnerTrace,
    n_services: nat,
    n_jobs: nat,
    r: Result<(), RunnerError>,
)
    requires
        runner_run_matches(tr, n_services, n_jobs, r),
        !registration_cleared(tr),
    ensures
        no_tasks_started(tr),
        tr.queried matches Err(e) ==> r == Err::<(), RunnerError>(e),
        tr.registered matches Some(Err(e)) ==> r == Err::<(), RunnerError>(e),
{
}

/// Law: with registration settled and every service started, the run
/// returns `Ok(())` after awaiting one completion signal per started task —
/// however each task itself ended.
pub proof fn lemma_run_outlives_task_failures(
    tr: RunnerTrace,
    n_services: nat,
    n_jobs: nat,
    r: Result<(), RunnerError>,
)
    requires
        runner_run_matches(tr, n_services, n_jobs, r),
        registration_cleared(tr),
        forall|i: int| 0 <= i < tr.services_started.len() ==> (#[trigger] tr.services_started[i]) is Ok,
    ensures
        r == Ok::<(), RunnerError>(()),
        tr.waited.len() == n_services + count_true(tr.jobs_inited),
{
    if tr.services_started.len() > 0 && tr.services_started.last() is Err {
        assert(tr.services_started.last() is Ok);
    }
}

/// Composes one registration adapter, any number of jobs, any number of
/// background services and the shared environment, and owns the startup and
/// completion-wait control flow.
pub struct BlueprintRunner<C, J, B> {
    pub config: C,
    pub jobs: Vec<J>,
    pub env: GadgetConfiguration,
    pub background_services: Vec<B>,
}

impl<C: BlueprintConfig, J: InitializableEventHandler, B: BackgroundService> BlueprintRunner<
    C,
    J,
    B,
> {
    /// A runner for one protocol adapter and environment, with no jobs and
    /// no services yet.
    pub fn new(config: C, env: GadgetConfiguration) -> (r: Self)
        ensures
            r.jobs@.len() == 0,
            r.background_services@.len() == 0,
            r.config == config,
            r.env == env,
    {
        Self { config, jobs: Vec::new(), env, background_services: Vec::new() }
    }

    /// Appends a job handle. Chain before [`Self::run`].
    pub fn job(&mut self, job: J)
        ensures
            final(self).jobs@ == old(self).jobs@.push(job),
            final(self).background_services@ == old(self).background_services@,
            final(self).config == old(self).config,
            final(self).env == old(self).env,
    {
        self.jobs.push(job);
    }

    /// Appends a background-service handle. Chain before [`Self::run`].
    pub fn background_service(&mut self, service: B)
        ensures
            final(self).background_services@ == old(self).background_services@.push(service),
            final(self).jobs@ == old(self).jobs@,
            final(self).config == old(self).config,
            final(self).env == old(self).env,
    {
        self.background_services.push(service);
    }

    /// Runs the blueprint to completion.
    ///
    /// First registration: a failing query, a failing registration or a
    /// failing service start is returned at once and nothing further is
    /// started. Then every job is initialized, and the runner waits until
    /// the completion signal of every started task has fired; a signal that
    /// carries an error is logged and does not end the wait. When the wait
    /// set is empty the run returns `Ok(())`.
    pub fn run<L: Logger>(&mut self, logger: &mut L) -> (r: (
        Result<(), RunnerError>,
        Ghost<RunnerTrace>,
    ))
        ensures
            runner_run_matches(
                r.1@,
                old(self).background_services@.len(),
                old(self).jobs@.len(),
                r.0,
            ),
            old(self).config.protocol() matches Some(p) ==> (!crate::config::settings_match(
                old(self).env.protocol_settings,
                p,
            ) ==> (r.0 matches Err(RunnerError::InvalidProtocol(_)) && no_tasks_started(r.1@))),
            final(self).env == old(self).env,
            final(self).config == old(self).config,
            final(self).background_services@ == old(self).background_services@,
            final(self).jobs@.len() + r.1@.jobs_inited.len() == old(self).jobs@.len(),
            r.1@.jobs_inited.len() == 0 ==> final(self).jobs@ == old(self).jobs@,
    {
        let ghost n_services = self.background_services@.len();
        let ghost n_jobs = self.jobs@.len();

        let queried = self.config.requires_registration(&self.env);
        let ghost g_queried = queried;
        let ghost mut g_registered: Option<Result<(), RunnerError>> = None;
        match queried {
            Err(e) => {
                return (
                    Err(e),
                    Ghost(
                        RunnerTrace {
                            queried: g_queried,
                            registered: None,
                            services_started: Seq::empty(),
                            jobs_inited: Seq::empty(),
                            waited: Seq::empty(),
                        },
                    ),
                );
            },
            Ok(true) => {
                let registered = self.config.register(&self.env);
                match registered {
                    Err(e) => {
                        let ghost g_err = e;
                        proof {
                            g_registered = Some(Err(g_err));
                        }
                        return (
                            Err(e),
                            Ghost(
                                RunnerTrace {
                                    queried: g_queried,
                                    registered: g_registered,
                                    services_started: Seq::empty(),
                                    jobs_inited: Seq::empty(),
                                    waited: Seq::empty(),
                                },
                            ),
                        );
                    },
                    Ok(_) => {
                        proof {
                            g_registered = Some(Ok(()));
                        }
                    },
                }
            },
            Ok(false) => {},
        }

        // Registration is settled: start every background service; the
        // first start failure aborts the run before any job is initialized.
        let mut service_signals: Vec<B::Signal> = Vec::new();
        let ghost mut g_started: Seq<Result<(), RunnerError>> = Seq::empty();
        let mut i: usize = 0;
        while i < self.background_services.len()
            invariant
                i <= self.background_services@.len(),
                self.background_services@.len() == n_services,
                g_started.len() == i as nat,
                service_signals@.len() == i as nat,
                forall|k: int| 0 <= k < g_started.len() ==> (#[trigger] g_started[k]) is Ok,
                registration_cleared(
                    RunnerTrace {
                        queried: g_queried,
                        registered: g_registered,
                        services_started: g_started,
                        jobs_inited: Seq::empty(),
                        waited: Seq::empty(),
                    },
                ),
                g_registered is Some <==> g_queried == Ok::<bool, RunnerError>(true),
                old(self).config.protocol() matches Some(p) ==> crate::config::settings_match(
                    old(self).env.protocol_settings,
                    p,
                ),
            decreases self.background_services@.len() - i,
        {
            match self.background_services[i].start() {
                Ok(signal) => {
                    service_signals.push(signal);
                    proof {
                        g_started = g_started.push(Ok(()));
                    }
                },
                Err(e) => {
                    let ghost g_err = e;
                    proof {
                        g_started = g_started.push(Err(g_err));
                    }
                    return (
                        Err(e),
                        Ghost(
                            RunnerTrace {
                                queried: g_queried,
                                registered: g_registered,
                                services_started: g_started,
                                jobs_inited: Seq::empty(),
                                waited: Seq::empty(),
                            },
                        ),
                    );
                },
            }
            i = i + 1;
        }

        // Initialize every job, consuming the handles as the run consumes
        // the runner; a job without a signal counts as already complete.
        let mut job_signals: Vec<J::Signal> = Vec::new();
        let ghost mut g_inited: Seq<bool> = Seq::empty();
        while self.jobs.len() > 0
            invariant
                g_inited.len() + self.jobs@.len() == n_jobs,
                job_signals@.len() == count_true(g_inited),
                self.env == old(self).env,
                self.config == old(self).config,
                self.background_services@ == old(self).background_services@,
                old(self).config.protocol() matches Some(p) ==> crate::config::settings_match(
                    old(self).env.protocol_settings,
                    p,
                ),
            decreases self.jobs@.len(),
        {
            let job = self.jobs.remove(0);
            match job.init_event_handler() {
                Some(signal) => {
                    job_signals.push(signal);
                    proof {
                        lemma_count_true_push(g_inited, true);
                        g_inited = g_inited.push(true);
                    }
                },
                None => {
                    proof {
                        lemma_count_true_push(g_inited, false);
                        g_inited = g_inited.push(false);
                    }
                },
            }
        }

        // Wait until every started task's completion signal has fired. The
        // wait set empties one signal at a time; a task failure is logged
        // and never fails the run.
        let ghost mut g_waited: Seq<Result<(), RunnerError>> = Seq::empty();
        let ghost total_signals = service_signals@.len() + job_signals@.len();
        while service_signals.len() > 0
            invariant
                g_waited.len() + service_signals@.len() + job_signals@.len() == total_signals,
                old(self).config.protocol() matches Some(p) ==> crate::config::settings_match(
                    old(self).env.protocol_settings,
                    p,
                ),
            decreases service_signals@.len(),
        {
            let signal = service_signals.pop().unwrap();
            let outcome = signal.wait();
            if outcome.is_err() {
                logger.error("background service ended with an error");
            }
            proof {
                g_waited = g_waited.push(outcome);
            }
        }
        while job_signals.len() > 0
            invariant
                g_waited.len() + job_signals@.len() == total_signals,
                old(self).config.protocol() matches Some(p) ==> crate::config::settings_match(
                    old(self).env.protocol_settings,
                    p,
                ),
            decreases job_signals@.len(),
        {
            let signal = job_signals.pop().unwrap();
            let outcome = signal.wait();
            if outcome.is_err() {
                logger.error("job ended with an error");
            }
            proof {
                g_waited = g_waited.push(outcome);
            }
        }

        (
            Ok(()),
            Ghost(
                RunnerTrace {
                    queried: g_queried,
                    registered: g_registered,
                    services_started: g_started,
                    jobs_inited: g_inited,
                    waited: g_waited,
                },
            ),
        )
    }
}

} // verus!

//! The job engine: which job runs next, and what follows from a job that
//! has run.
//!
//! The engine keeps the jobs that wait, the one job that runs, and the jobs
//! that have run. It runs nothing itself. Whoever drives it asks it for the
//! next step, runs the job that it hands out, and tells it how the job has
//! ended; the engine then notes what has to happen next and, when no other
//! job waits, makes the job that does it. In this way a copy of the sources
//! leads to a build of the tests, the build to a listing of the tests, and
//! the listing to a run of the tests.
use crate::configuration::{BuildMode, Configuration};
use crate::jobs::{
    BuildAllTestsJob, CommandJobText, CompletedJob, CompletedJobText, CompletionStatus,
    CompletionStatusText, JobId, JobIdSource, JobKind, JobKindText, ListAllTestsJob, PendingJob,
    PendingJobText, RunTestsJob,
};
use crate::shadow_copy_destination::DestinationPaths;
use crate::state::{updated, CrateTestsText, State};
use crate::test_list::listing_of;
use crate::text::bytes_of;
use crate::thread_clutch::ThreadClutch;
use std::collections::VecDeque;
use vstd::prelude::*;

verus! {

/// A flag that says whether something has to happen.
#[derive(Debug)]
pub struct BoolFlag {
    flag: bool,
}

impl BoolFlag {
    /// What the flag says.
    pub closed spec fn value(&self) -> bool {
        self.flag
    }

    /// A flag that says no.
    pub fn new() -> (r: Self)
        ensures
            !r.value(),
    {
        BoolFlag { flag: false }
    }

    pub fn is_true(&self) -> (r: bool)
        ensures
            r == self.value(),
    {
        self.flag
    }

    pub fn is_false(&self) -> (r: bool)
        ensures
            r == !self.value(),
    {
        !self.is_true()
    }

    pub fn get(&self) -> (r: bool)
        ensures
            r == self.value(),
    {
        self.flag
    }

    pub fn set(&mut self, value: bool)
        ensures
            final(self).value() == value,
    {
        self.flag = value;
    }

    pub fn set_true(&mut self)
        ensures
            final(self).value(),
    {
        self.set(true);
    }

    pub fn set_false(&mut self)
        ensures
            !final(self).value(),
    {
        self.set(false);
    }
}

/// What has to happen next: the three flags of the engine.
pub struct Required {
    /// The tests have to be built.
    pub build: bool,
    /// The tests have to be listed.
    pub list: bool,
    /// The tests have to be run.
    pub run: bool,
}

/// What has to happen after a job of the kind `kind` has ended with the
/// status `status`, `before` being what had to happen before.
///
/// A copy of the sources, or of one file, that has succeeded asks for a
/// build of the tests. A build of the tests that has succeeded asks for a
/// listing, and a listing that has succeeded for a run. A job that has
/// failed asks for nothing, and takes back what was asked of it: nothing is
/// tried a second time before the sources change again. A build of the
/// workspace changes nothing, nor does a job of which it is not known how it
/// has ended.
pub open spec fn required_after(
    before: Required,
    kind: JobKindText,
    status: CompletionStatusText,
) -> Required {
    match (kind, status) {
        (_, CompletionStatusText::Unknown) => before,
        (JobKindText::ShadowCopy(_), CompletionStatusText::Success) => Required {
            build: true,
            ..before
        },
        (JobKindText::ShadowCopy(_), CompletionStatusText::Error(_)) => Required {
            build: false,
            ..before
        },
        (JobKindText::FileSync(_), CompletionStatusText::Success) => Required {
            build: true,
            ..before
        },
        (JobKindText::FileSync(_), CompletionStatusText::Error(_)) => before,
        (JobKindText::BuildAllTests(_), CompletionStatusText::Success) => Required {
            build: false,
            list: true,
            ..before
        },
        (JobKindText::BuildAllTests(_), CompletionStatusText::Error(_)) => Required {
            build: false,
            ..before
        },
        (JobKindText::BuildWorkspace(_), _) => before,
        (JobKindText::ListAllTests(_), CompletionStatusText::Success) => Required {
            list: false,
            run: true,
            ..before
        },
        (JobKindText::ListAllTests(_), CompletionStatusText::Error(_)) => Required {
            list: false,
            ..before
        },
        (JobKindText::RunTests(_), _) => Required { run: false, ..before },
    }
}

/// The tests that are known after a job of the kind `kind` has ended with
/// the status `status`: a listing that has succeeded brings the state up to
/// date with what it lists.
pub open spec fn state_after(
    before: Seq<CrateTestsText>,
    kind: JobKindText,
    status: CompletionStatusText,
) -> Seq<CrateTestsText> {
    match (kind, status) {
        (JobKindText::ListAllTests(job), CompletionStatusText::Success) => match listing_of(
            bytes_of(job.output),
        ) {
            Ok(listing) => updated(before, listing),
            Err(_) => before,
        },
        _ => before,
    }
}

/// What the engine holds.
pub struct EngineState {
    /// Where the jobs that the engine makes run.
    pub destination: DestinationPaths,
    /// The mode of the builds that the engine makes.
    pub build_mode: BuildMode,
    /// The mode of the listings and of the runs that the engine makes.
    pub test_mode: BuildMode,
    /// The jobs that wait, the one that has waited longest in front.
    pub pending: Seq<PendingJobText>,
    /// The job that runs.
    pub executing: Option<PendingJobText>,
    /// The jobs that have run, the last one at the end.
    pub completed: Seq<CompletedJobText>,
    /// Whether the engine is paused.
    pub paused: bool,
    pub required: Required,
    /// The tests that are known.
    pub tests: Seq<CrateTestsText>,
}

/// What the engine answers when it is asked for the next step.
pub enum NextStep {
    /// This job is to be run now.
    Execute(PendingJobText),
    /// A job is running. Nothing is to be done before it has ended.
    WaitForCompletion,
    /// The engine is paused. Nothing is to be done before it is restarted.
    WaitForRelease,
    /// No job waits. Nothing is to be done before one is added.
    WaitForJob,
}

/// The job that the engine makes for what has to happen: it runs where
/// the engine's jobs run, in the mode `build_mode`, and has put out nothing yet.
pub open spec fn made_job(e: EngineState, build_mode: BuildMode) -> CommandJobText {
    CommandJobText { destination: e.destination, build_mode, output: Seq::empty() }
}

impl EngineState {
    /// The engine with `job` behind the jobs that wait.
    pub open spec fn add_job(self, job: PendingJobText) -> EngineState {
        EngineState { pending: self.pending.push(job), ..self }
    }

    /// The engine, paused.
    pub open spec fn pause(self) -> EngineState {
        EngineState { paused: true, ..self }
    }

    /// The engine, no longer paused.
    pub open spec fn restart(self) -> EngineState {
        EngineState { paused: false, ..self }
    }

    /// What is to be done next. While a job runs, no other job is started;
    /// nor while the engine is paused. Else the job that has waited longest
    /// is started.
    pub open spec fn next_step(self) -> NextStep {
        if self.executing is Some {
            NextStep::WaitForCompletion
        } else if self.paused {
            NextStep::WaitForRelease
        } else if self.pending.len() == 0 {
            NextStep::WaitForJob
        } else {
            NextStep::Execute(self.pending[0])
        }
    }

    /// The engine after it was asked for the next step: a job that is
    /// started does not wait any longer, and runs.
    pub open spec fn after_next_step(self) -> EngineState {
        match self.next_step() {
            NextStep::Execute(job) => EngineState {
                pending: self.pending.drop_first(),
                executing: Some(job),
                ..self
            },
            _ => self,
        }
    }

    /// Nothing runs, nothing waits and nothing has to happen.
    pub open spec fn is_idle(self) -> bool {
        &&& self.executing is None
        &&& self.pending.len() == 0
        &&& !self.required.build
        &&& !self.required.list
        &&& !self.required.run
    }

    /// The kind of job that does what has to happen first: the build comes
    /// before the listing, and the listing before the run.
    pub open spec fn follow_up(self) -> Option<JobKindText> {
        if self.required.build {
            Some(JobKindText::BuildAllTests(made_job(self, self.build_mode)))
        } else if self.required.list {
            Some(JobKindText::ListAllTests(made_job(self, self.test_mode)))
        } else if self.required.run {
            Some(JobKindText::RunTests(made_job(self, self.test_mode)))
        } else {
            None
        }
    }

    /// The engine after the job that ran has ended, before it makes any job.
    pub open spec fn with_completed(self, job: CompletedJobText) -> EngineState {
        EngineState {
            executing: None,
            completed: self.completed.push(job),
            required: required_after(self.required, job.kind, job.status),
            tests: state_after(self.tests, job.kind, job.status),
            ..self
        }
    }

    /// Whether the engine makes a job after `job` has ended: it does when
    /// no job waits and something has to happen.
    pub open spec fn makes_job_after(self, job: CompletedJobText) -> bool {
        self.pending.len() == 0 && self.with_completed(job).follow_up() is Some
    }

    /// The engine after the job that ran has ended as `job` says. The job
    /// is among those that have run. Where no job waits, the engine makes
    /// at most one, at the time `now` and with the id `next_id`, that does
    /// what has to happen first.
    pub open spec fn job_completed(
        self,
        job: CompletedJobText,
        next_id: usize,
        now: i64,
    ) -> EngineState {
        let ended = self.with_completed(job);
        if self.makes_job_after(job) {
            ended.add_job(
                PendingJobText {
                    id: JobId { id: next_id },
                    kind: ended.follow_up().unwrap(),
                    creation_date: now,
                },
            )
        } else {
            ended
        }
    }
}

/// While a job runs, the engine starts no other: asking it for the next
/// step gives no job and changes nothing.
pub proof fn lemma_one_job_at_a_time(e: EngineState)
    ensures
        e.executing is Some ==> !(e.next_step() is Execute) && e.after_next_step() == e,
        e.next_step() is Execute ==> e.executing is None && e.after_next_step().executing is Some,
        e.after_next_step().executing is Some ==> !(e.after_next_step().next_step() is Execute),
{
}

/// A job that is added while the engine is paused is neither lost nor run:
/// it waits behind the jobs that waited before, and however often the
/// engine is asked for the next step, it starts nothing. Once the engine is
/// restarted and no job runs, it starts the job that has waited longest:
/// the added job, where none waited before it.
pub proof fn lemma_pause_keeps_jobs(e: EngineState, job: PendingJobText)
    requires
        e.paused,
    ensures
        e.add_job(job).pending == e.pending.push(job),
        e.add_job(job).paused,
        !(e.add_job(job).next_step() is Execute),
        e.add_job(job).after_next_step() == e.add_job(job),
        e.executing is None ==> e.add_job(job).restart().next_step() == NextStep::Execute(
            e.pending.push(job)[0],
        ),
        e.executing is None && e.pending.len() == 0 ==> e.add_job(job).restart().next_step()
            == NextStep::Execute(job) && e.add_job(job).restart().after_next_step().executing
            == Some(job),
{
}

/// The job that the engine makes after the job `job` has ended, if it makes one.
pub open spec fn made_after(
    e: EngineState,
    job: CompletedJobText,
    next_id: usize,
    now: i64,
) -> Option<PendingJobText> {
    if e.makes_job_after(job) {
        Some(e.job_completed(job, next_id, now).pending.last())
    } else {
        None
    }
}

/// From an engine in which nothing runs, nothing waits and nothing has to
/// happen, a copy of the sources that succeeds leads to exactly three jobs,
/// one after the other: the build of the tests, on its success the listing
/// of the tests, and on its success the run of the tests. However the run
/// ends, the engine makes no further job: nothing runs, nothing waits and
/// nothing has to happen.
///
/// `copied`, `built`, `listed` and `ran` say how the four jobs have ended;
/// `ids` holds the ids that the engine gives to the jobs that it makes, and
/// `times` the times at which the jobs end.
pub proof fn lemma_follow_up_chain(
    e: EngineState,
    copy: PendingJobText,
    copied: CompletedJobText,
    built: CompletedJobText,
    listed: CompletedJobText,
    ran: CompletedJobText,
    ids: Seq<usize>,
    times: Seq<i64>,
)
    requires
        e.is_idle(),
        !e.paused,
        copy.kind is ShadowCopy,
        copied.kind is ShadowCopy && copied.status is Success,
        built.kind is BuildAllTests && built.status is Success,
        listed.kind is ListAllTests && listed.status is Success,
        ran.kind is RunTests && !(ran.status is Unknown),
        ids.len() == 3,
        times.len() == 4,
    ensures
        ({
            let copying = e.add_job(copy).after_next_step();
            let after_copy = copying.job_completed(copied, ids[0], times[0]);
            let building = after_copy.after_next_step();
            let after_build = building.job_completed(built, ids[1], times[1]);
            let listing = after_build.after_next_step();
            let after_listing = listing.job_completed(listed, ids[2], times[2]);
            let running = after_listing.after_next_step();
            let after_run = running.job_completed(ran, 0, times[3]);
            &&& copying.executing == Some(copy)
            &&& after_copy.executing is None
            &&& after_copy.pending == seq![
                PendingJobText {
                    id: JobId { id: ids[0] },
                    kind: JobKindText::BuildAllTests(made_job(e, e.build_mode)),
                    creation_date: times[0],
                },
            ]
            &&& building.executing == Some(after_copy.pending[0])
            &&& after_build.executing is None
            &&& after_build.pending == seq![
                PendingJobText {
                    id: JobId { id: ids[1] },
                    kind: JobKindText::ListAllTests(made_job(e, e.test_mode)),
                    creation_date: times[1],
                },
            ]
            &&& listing.executing == Some(after_build.pending[0])
            &&& after_listing.executing is None
            &&& after_listing.pending == seq![
                PendingJobText {
                    id: JobId { id: ids[2] },
                    kind: JobKindText::RunTests(made_job(e, e.test_mode)),
                    creation_date: times[2],
                },
            ]
            &&& running.executing == Some(after_listing.pending[0])
            &&& after_run.is_idle()
            &&& after_run.completed == e.completed + seq![copied, built, listed, ran]
        }),
{
    let copying = e.add_job(copy).after_next_step();
    assert(e.add_job(copy).pending[0] == copy);
    assert(copying.pending =~= Seq::<PendingJobText>::empty());
    let after_copy = copying.job_completed(copied, ids[0], times[0]);
    assert(after_copy.pending =~= seq![
        PendingJobText {
            id: JobId { id: ids[0] },
            kind: JobKindText::BuildAllTests(made_job(e, e.build_mode)),
            creation_date: times[0],
        },
    ]);
    let building = after_copy.after_next_step();
    assert(building.pending =~= Seq::<PendingJobText>::empty());
    let after_build = building.job_completed(built, ids[1], times[1]);
    assert(after_build.pending =~= seq![
        PendingJobText {
            id: JobId { id: ids[1] },
            kind: JobKindText::ListAllTests(made_job(e, e.test_mode)),
            creation_date: times[1],
        },
    ]);
    let listing = after_build.after_next_step();
    assert(listing.pending =~= Seq::<PendingJobText>::empty());
    let after_listing = listing.job_completed(listed, ids[2], times[2]);
    assert(after_listing.pending =~= seq![
        PendingJobText {
            id: JobId { id: ids[2] },
            kind: JobKindText::RunTests(made_job(e, e.test_mode)),
            creation_date: times[2],
        },
    ]);
    let running = after_listing.after_next_step();
    assert(running.pending =~= Seq::<PendingJobText>::empty());
    let after_run = running.job_completed(ran, 0, times[3]);
    assert(after_run.completed =~= e.completed + seq![copied, built, listed, ran]);
}

/// A build of the tests that fails leads to no listing: unless a listing
/// was asked for before, the engine makes none. Where no job waits and
/// neither a listing nor a run was asked for, it makes no job at all, and
/// nothing runs, nothing waits and nothing has to happen.
pub proof fn lemma_error_dampening(
    e: EngineState,
    job: CompletedJobText,
    message: Seq<char>,
    next_id: usize,
    now: i64,
)
    requires
        job.kind is BuildAllTests,
        job.status == CompletionStatusText::Error(message),
    ensures
        !e.job_completed(job, next_id, now).required.build,
        e.job_completed(job, next_id, now).required.list == e.required.list,
        !e.required.list ==> match made_after(e, job, next_id, now) {
            Some(made) => !(made.kind is ListAllTests),
            None => true,
        },
        e.pending.len() == 0 && !e.required.list && !e.required.run ==> made_after(
            e,
            job,
            next_id,
            now,
        ) is None && e.job_completed(job, next_id, now).is_idle(),
{
}

/// The engine that runs the jobs, one at a time.
pub struct JobEngine {
    configuration: Configuration,
    state: State,
    /// The list of pending (yet to be executed) jobs.
    pending_jobs: VecDeque<PendingJob>,
    executing_job: Option<PendingJob>,
    /// The list of completed jobs.
    completed_jobs: Vec<CompletedJob>,
    /// A clutch that allows us to pause and restart the engine: while it is
    /// paused, no job is started, yet jobs can still be added.
    job_starter_clutch: ThreadClutch,
    build_tests_required: BoolFlag,
    list_tests_required: BoolFlag,
    run_tests_required: BoolFlag,
}

/// What a sequence of pending jobs holds.
pub open spec fn pending_text(v: Seq<PendingJob>) -> Seq<PendingJobText> {
    v.map_values(|j: PendingJob| j@)
}

/// What a sequence of completed jobs holds.
pub open spec fn completed_text(v: Seq<CompletedJob>) -> Seq<CompletedJobText> {
    v.map_values(|j: CompletedJob| j@)
}

impl View for JobEngine {
    type V = EngineState;

    closed spec fn view(&self) -> EngineState {
        EngineState {
            destination: self.configuration.inner.destination@,
            build_mode: self.configuration.inner.args.build_mode.spec_build_mode(),
            test_mode: self.configuration.inner.args.test_mode.spec_build_mode(),
            pending: pending_text(self.pending_jobs@),
            executing: match self.executing_job {
                Some(job) => Some(job@),
                None => None,
            },
            completed: completed_text(self.completed_jobs@),
            paused: self.job_starter_clutch.paused(),
            required: Required {
                build: self.build_tests_required.value(),
                list: self.list_tests_required.value(),
                run: self.run_tests_required.value(),
            },
            tests: self.state.inner@,
        }
    }
}

/// What is to be done next.
#[derive(Debug)]
pub enum Step {
    /// This job is to be run now, and the engine is to be told how it has ended.
    Execute(PendingJob),
    /// A job is running. Nothing is to be done before it has ended.
    WaitForCompletion,
    /// The engine is paused. Nothing is to be done before it is restarted.
    WaitForRelease,
    /// No job waits. Nothing is to be done before one is added.
    WaitForJob,
}

impl View for Step {
    type V = NextStep;

    open spec fn view(&self) -> NextStep {
        match self {
            Step::Execute(job) => NextStep::Execute(job@),
            Step::WaitForCompletion => NextStep::WaitForCompletion,
            Step::WaitForRelease => NextStep::WaitForRelease,
            Step::WaitForJob => NextStep::WaitForJob,
        }
    }
}

impl JobEngine {
    /// Creates a new job engine that is ready to process jobs: nothing
    /// waits, nothing runs, nothing has run and nothing has to happen.
    pub fn new(configuration: Configuration, state: State) -> (engine: Self)
        ensures
            engine@ == (EngineState {
                destination: configuration.inner.destination@,
                build_mode: configuration.inner.args.build_mode.spec_build_mode(),
                test_mode: configuration.inner.args.test_mode.spec_build_mode(),
                pending: Seq::empty(),
                executing: None,
                completed: Seq::empty(),
                paused: false,
                required: Required { build: false, list: false, run: false },
                tests: state.inner@,
            }),
            engine@.is_idle(),
    {
        let engine = JobEngine {
            configuration,
            state,
            pending_jobs: VecDeque::new(),
            executing_job: None,
            completed_jobs: Vec::new(),
            job_starter_clutch: ThreadClutch::new(),
            build_tests_required: BoolFlag::new(),
            list_tests_required: BoolFlag::new(),
            run_tests_required: BoolFlag::new(),
        };
        proof {
            assert(engine@.pending =~= Seq::<PendingJobText>::empty());
            assert(engine@.completed =~= Seq::<CompletedJobText>::empty());
        }
        engine
    }

    /// Pauses the job engine.
    /// This does not clear out the list of pending jobs, nor does it stop the
    /// currently executing job, if any. However, after that job has completed
    /// no new jobs will begin to execute.
    pub fn pause(&mut self)
        ensures
            final(self)@ == old(self)@.pause(),
    {
        self.job_starter_clutch.pause_threads();
    }

    /// Restarts the job engine after a pause.
    pub fn restart(&mut self)
        ensures
            final(self)@ == old(self)@.restart(),
    {
        self.job_starter_clutch.release_threads();
    }

    /// Add a job to the end of the queue.
    pub fn add_job(&mut self, job: PendingJob)
        ensures
            final(self)@ == old(self)@.add_job(job@),
    {
        proof {
            assert(pending_text(self.pending_jobs@.push(job)) =~= pending_text(
                self.pending_jobs@,
            ).push(job@));
        }
        self.pending_jobs.push_back(job);
    }

    /// Says what is to be done next. A job that is handed out has been
    /// taken from the front of the queue, and counts as running until the
    /// engine is told that it has ended.
    pub fn get_next_job(&mut self) -> (step: Step)
        ensures
            step@ == old(self)@.next_step(),
            final(self)@ == old(self)@.after_next_step(),
    {
        if self.executing_job.is_some() {
            return Step::WaitForCompletion;
        }
        if self.job_starter_clutch.is_paused() {
            return Step::WaitForRelease;
        }
        match self.pending_jobs.pop_front() {
            Some(job) => {
                proof {
                    assert(pending_text(self.pending_jobs@) =~= pending_text(
                        old(self).pending_jobs@,
                    ).drop_first());
                }
                self.executing_job = Some(job.clone());
                Step::Execute(job)
            },
            None => Step::WaitForJob,
        }
    }

    /// Sets the various state flags based on the job and its completion status.
    pub fn set_engine_state_flags(&mut self, job: &CompletedJob)
        ensures
            final(self)@ == (EngineState {
                required: required_after(old(self)@.required, job@.kind, job@.status),
                ..old(self)@
            }),
    {
        match (&job.kind, &job.status) {
            (_, CompletionStatus::Unknown) => {},
            (JobKind::ShadowCopy(_), CompletionStatus::Success) => {
                self.build_tests_required.set_true();
            },
            (JobKind::ShadowCopy(_), CompletionStatus::Error(_)) => {
                self.build_tests_required.set_false();
            },
            (JobKind::FileSync(_), CompletionStatus::Success) => {
                self.build_tests_required.set_true();
            },
            (JobKind::FileSync(_), CompletionStatus::Error(_)) => {},
            (JobKind::BuildAllTests(_), CompletionStatus::Success) => {
                self.build_tests_required.set_false();
                self.list_tests_required.set_true();
            },
            (JobKind::BuildAllTests(_), CompletionStatus::Error(_)) => {
                // To prevent recursion, we need to wait till we get another file copy.
                self.build_tests_required.set_false();
            },
            // Having a built crate available is just a convenience. It doesn't affect
            // the main flow of build tests -> list tests -> run tests.
            (JobKind::BuildWorkspace(_), _) => {},
            (JobKind::ListAllTests(_), CompletionStatus::Success) => {
                self.list_tests_required.set_false();
                self.run_tests_required.set_true();
            },
            (JobKind::ListAllTests(_), CompletionStatus::Error(_)) => {
                // To prevent recursion, we need to wait till we get another file copy.
                self.list_tests_required.set_false();
            },
            (JobKind::RunTests(_), _) => {
                self.run_tests_required.set_false();
            },
        }
    }

    /// Brings the tests that are known up to date with a listing that has succeeded.
    fn take_in_listing(&mut self, job: &CompletedJob)
        ensures
            final(self)@ == (EngineState {
                tests: state_after(old(self)@.tests, job@.kind, job@.status),
                ..old(self)@
            }),
    {
        match (&job.kind, &job.status) {
            (JobKind::ListAllTests(listing), CompletionStatus::Success) => {
                match listing.parse_tests() {
                    Ok(tests) => {
                        self.state.update_test_list(tests.as_slice());
                    },
                    Err(_) => {},
                }
            },
            _ => {},
        }
    }

    /// Takes in that the job which ran has ended as `job` says. The job
    /// goes to the completed ones. Then, if no job waits, the engine makes
    /// the job that does what has to happen first, at the time `now` and
    /// with the next id of `ids`.
    pub fn job_completed(&mut self, job: CompletedJob, ids: &mut JobIdSource, now: i64)
        ensures
            final(self)@ == old(self)@.job_completed(job@, old(ids).upcoming(), now),
            final(ids).upcoming() == (if old(self)@.makes_job_after(job@) {
                old(ids).following()
            } else {
                old(ids).upcoming()
            }),
    {
        self.take_in_listing(&job);
        self.set_engine_state_flags(&job);
        proof {
            assert(completed_text(self.completed_jobs@.push(job)) =~= completed_text(
                self.completed_jobs@,
            ).push(job@));
        }
        self.completed_jobs.push(job);
        self.executing_job = None;
        if self.pending_jobs.len() == 0 {
            let build_mode = self.configuration.inner.build_mode().build_mode();
            let test_mode = self.configuration.inner.test_mode().build_mode();
            if self.build_tests_required.is_true() {
                let job = BuildAllTestsJob::new(
                    self.configuration.inner.destination.clone(),
                    build_mode,
                    ids,
                    now,
                );
                self.add_job(job);
            } else if self.list_tests_required.is_true() {
                let job = ListAllTestsJob::new(
                    self.configuration.inner.destination.clone(),
                    test_mode,
                    ids,
                    now,
                );
                self.add_job(job);
            } else if self.run_tests_required.is_true() {
                let job = RunTestsJob::new(
                    self.configuration.inner.destination.clone(),
                    test_mode,
                    ids,
                    now,
                );
                self.add_job(job);
            }
        }
    }

    /// Whether the engine is paused.
    pub fn is_paused(&self) -> (r: bool)
        ensures
            r == self@.paused,
    {
        self.job_starter_clutch.is_paused()
    }

    /// The number of jobs that wait.
    pub fn pending_count(&self) -> (n: usize)
        ensures
            n == self@.pending.len(),
    {
        self.pending_jobs.len()
    }

    /// The job that runs.
    pub fn executing_job(&self) -> (r: Option<&PendingJob>)
        ensures
            match r {
                Some(job) => self@.executing == Some(job@),
                None => self@.executing is None,
            },
    {
        self.executing_job.as_ref()
    }

    /// The jobs that have run, the last one at the end.
    pub fn completed_jobs(&self) -> (r: &Vec<CompletedJob>)
        ensures
            completed_text(r@) == self@.completed,
    {
        &self.completed_jobs
    }

    /// The tests that are known.
    pub fn state(&self) -> (r: &State)
        ensures
            r.inner@ == self@.tests,
    {
        &self.state
    }

    /// The configuration of the run.
    pub fn configuration(&self) -> (r: &Configuration)
        ensures
            r.inner.destination@ == self@.destination,
            r.inner.args.build_mode.spec_build_mode() == self@.build_mode,
            r.inner.args.test_mode.spec_build_mode() == self@.test_mode,
    {
        &self.configuration
    }

    /// What has to happen next: whether the tests have to be built, to be
    /// listed and to be run.
    pub fn required(&self) -> (r: (bool, bool, bool))
        ensures
            r.0 == self@.required.build,
            r.1 == self@.required.list,
            r.2 == self@.required.run,
    {
        (
            self.build_tests_required.is_true(),
            self.list_tests_required.is_true(),
            self.run_tests_required.is_true(),
        )
    }
}

} // verus!

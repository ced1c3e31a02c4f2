//! The jobs that the engine runs.
//!
//! A job is a value: it carries what it needs to run and, once it has run,
//! what came of it. Running a job is the caller's part: it copies the files
//! or runs the command that the job names, and tells the job what happened.
//! The job then says whether it has succeeded. The caller reads the clock,
//! too: a time is a number of milliseconds since the start of 1970.
pub mod build_all_tests;
pub mod build_workspace;
pub mod file_sync;
pub mod list_all_tests;
pub mod run_tests;
pub mod shadow_copy;

pub use build_all_tests::BuildAllTestsJob;
pub use build_workspace::BuildWorkspaceJob;
pub use file_sync::FileSyncJob;
pub use list_all_tests::ListAllTestsJob;
pub use run_tests::RunTestsJob;
pub use shadow_copy::ShadowCopyJob;

use crate::configuration::BuildMode;
use crate::shadow_copy_destination::DestinationPaths;
use crate::source_directory_watcher::FileSyncEventPath;
use vstd::prelude::*;
use vstd::string::*;

verus! {

/// The words that a sequence of string slices holds.
pub open spec fn words(v: Seq<&str>) -> Seq<Seq<char>> {
    v.map_values(|s: &str| s@)
}

/// The program that the jobs invoke.
pub fn program() -> (r: &'static str)
    ensures
        r@ == "cargo"@,
{
    "cargo"
}

/// Every Job has a unique id.
#[derive(Debug, Clone, Copy, PartialEq, Eq, Structural)]
pub struct JobId {
    pub id: usize,
}

/// Where the ids of the jobs come from: a counter that starts at 1.
#[derive(Debug)]
pub struct JobIdSource {
    next: usize,
}

impl JobIdSource {
    /// The id that will be given out next.
    pub closed spec fn upcoming(&self) -> usize {
        self.next
    }

    /// The id that will be given out after the next: one more, and 0 after
    /// the greatest number there is.
    pub open spec fn following(&self) -> usize {
        if self.upcoming() == usize::MAX {
            0
        } else {
            (self.upcoming() + 1) as usize
        }
    }

    /// The id that will be given out next.
    pub fn upcoming_id(&self) -> (r: usize)
        ensures
            r == self.upcoming(),
    {
        self.next
    }

    /// A source of ids that has given out none yet.
    pub fn new() -> (r: Self)
        ensures
            r.upcoming() == 1,
    {
        JobIdSource { next: 1 }
    }
}

impl JobId {
    /// The next id of `ids`. Each id is one greater than the one before it.
    pub fn new(ids: &mut JobIdSource) -> (r: Self)
        ensures
            r.id == old(ids).upcoming(),
            final(ids).upcoming() == old(ids).following(),
    {
        let id = ids.next;
        ids.next = if id == usize::MAX {
            0
        } else {
            id + 1
        };
        JobId { id }
    }
}

/// Specifies the completion status of a Job.
#[derive(Debug)]
pub enum CompletionStatus {
    Unknown,
    /// The job has ended well.
    Success,
    /// The job has failed, for this reason.
    Error(String),
}

/// What a `CompletionStatus` holds.
pub enum CompletionStatusText {
    Unknown,
    Success,
    Error(Seq<char>),
}

impl View for CompletionStatus {
    type V = CompletionStatusText;

    open spec fn view(&self) -> CompletionStatusText {
        match self {
            CompletionStatus::Unknown => CompletionStatusText::Unknown,
            CompletionStatus::Success => CompletionStatusText::Success,
            CompletionStatus::Error(message) => CompletionStatusText::Error(message@),
        }
    }
}

impl CompletionStatus {
    /// The status of a job that has failed for the reason `message`.
    pub fn from(message: String) -> (r: Self)
        ensures
            r@ == CompletionStatusText::Error(message@),
    {
        CompletionStatus::Error(message)
    }

}

impl Clone for CompletionStatus {
    fn clone(&self) -> (r: Self)
        ensures
            r@ == self@,
    {
        match self {
            CompletionStatus::Unknown => CompletionStatus::Unknown,
            CompletionStatus::Success => CompletionStatus::Success,
            CompletionStatus::Error(message) => CompletionStatus::Error(message.clone()),
        }
    }
}

/// What a command has put out, and why it has failed if it has.
#[derive(Debug)]
pub struct ProcessOutput {
    /// What the command has written, its error output among its output.
    pub stdout: String,
    /// Why the command has failed: it could not be started, what it wrote
    /// could not be read, or it did not end well. `None` for a command that
    /// ended well.
    pub failure: Option<String>,
}

/// What a `ProcessOutput` holds.
pub struct ProcessOutputText {
    pub stdout: Seq<char>,
    pub failure: Option<Seq<char>>,
}

impl ProcessOutputText {
    /// The status of a job whose command has put this out.
    pub open spec fn status(self) -> CompletionStatusText {
        match self.failure {
            Some(message) => CompletionStatusText::Error(message),
            None => CompletionStatusText::Success,
        }
    }
}

impl View for ProcessOutput {
    type V = ProcessOutputText;

    open spec fn view(&self) -> ProcessOutputText {
        ProcessOutputText {
            stdout: self.stdout@,
            failure: match self.failure {
                Some(message) => Some(message@),
                None => None,
            },
        }
    }
}

impl Clone for ProcessOutput {
    fn clone(&self) -> (r: Self)
        ensures
            r@ == self@,
    {
        ProcessOutput {
            stdout: self.stdout.clone(),
            failure: match &self.failure {
                Some(message) => Some(message.clone()),
                None => None,
            },
        }
    }
}

impl ProcessOutput {
    /// Whether the command ended well.
    pub fn success(&self) -> (r: bool)
        ensures
            r == (self@.failure is None),
    {
        self.failure.is_none()
    }
}

/// What a job that runs a command holds.
pub struct CommandJobText {
    pub destination: DestinationPaths,
    pub build_mode: BuildMode,
    pub output: Seq<char>,
}

/// What a `ShadowCopyJob` holds.
pub struct ShadowCopyJobText {
    pub destination: DestinationPaths,
    pub num_files_copied: usize,
}

/// What a `FileSyncJob` holds.
pub struct FileSyncJobText {
    pub destination: DestinationPaths,
    pub file_sync_event: FileSyncEventPath,
}

/// The `JobKind` specifies what type of job it is and the supporting data needed for that job.
#[derive(Debug)]
pub enum JobKind {
    /// Perform a shadow copy from the source directory to the destination directory.
    ShadowCopy(ShadowCopyJob),
    /// Perform a file sync (copy or delete) of a file.
    FileSync(FileSyncJob),
    /// Perform a build **tests only**.
    BuildAllTests(BuildAllTestsJob),
    /// Perform a build **of the crate**.
    BuildWorkspace(BuildWorkspaceJob),
    /// List all tests.
    ListAllTests(ListAllTestsJob),
    /// Run all tests.
    RunTests(RunTestsJob),
}

/// What a `JobKind` holds.
pub enum JobKindText {
    ShadowCopy(ShadowCopyJobText),
    FileSync(FileSyncJobText),
    BuildAllTests(CommandJobText),
    BuildWorkspace(CommandJobText),
    ListAllTests(CommandJobText),
    RunTests(CommandJobText),
}

impl View for JobKind {
    type V = JobKindText;

    open spec fn view(&self) -> JobKindText {
        match self {
            JobKind::ShadowCopy(job) => JobKindText::ShadowCopy(job@),
            JobKind::FileSync(job) => JobKindText::FileSync(job@),
            JobKind::BuildAllTests(job) => JobKindText::BuildAllTests(job@),
            JobKind::BuildWorkspace(job) => JobKindText::BuildWorkspace(job@),
            JobKind::ListAllTests(job) => JobKindText::ListAllTests(job@),
            JobKind::RunTests(job) => JobKindText::RunTests(job@),
        }
    }
}

impl JobKind {
}

impl Clone for JobKind {
    fn clone(&self) -> (r: Self)
        ensures
            r@ == self@,
    {
        match self {
            JobKind::ShadowCopy(job) => JobKind::ShadowCopy(job.clone()),
            JobKind::FileSync(job) => JobKind::FileSync(job.clone()),
            JobKind::BuildAllTests(job) => JobKind::BuildAllTests(job.clone()),
            JobKind::BuildWorkspace(job) => JobKind::BuildWorkspace(job.clone()),
            JobKind::ListAllTests(job) => JobKind::ListAllTests(job.clone()),
            JobKind::RunTests(job) => JobKind::RunTests(job.clone()),
        }
    }
}

/// What every job has, whether it waits, runs or has run.
pub trait Job {
    /// What the job holds.
    spec fn job_id(&self) -> JobId;

    /// What the job is to do.
    spec fn job_kind(&self) -> JobKindText;

    fn id(&self) -> (r: &JobId)
        ensures
            *r == self.job_id(),
    ;

    fn kind(&self) -> (r: &JobKind)
        ensures
            r@ == self.job_kind(),
    ;
}

/// A job that waits to be run.
#[derive(Debug)]
pub struct PendingJob {
    pub id: JobId,
    pub kind: JobKind,
    /// When the job was made, in milliseconds since the start of 1970.
    pub creation_date: i64,
}

/// What a `PendingJob` holds.
pub struct PendingJobText {
    pub id: JobId,
    pub kind: JobKindText,
    pub creation_date: i64,
}

impl View for PendingJob {
    type V = PendingJobText;

    open spec fn view(&self) -> PendingJobText {
        PendingJobText { id: self.id, kind: self.kind@, creation_date: self.creation_date }
    }
}

impl Job for PendingJob {
    open spec fn job_id(&self) -> JobId {
        self.id
    }

    open spec fn job_kind(&self) -> JobKindText {
        self.kind@
    }

    fn id(&self) -> (r: &JobId) {
        &self.id
    }

    fn kind(&self) -> (r: &JobKind) {
        &self.kind
    }
}

impl PendingJob {
    /// A job of the kind `kind` that is made at the time `now` and gets the
    /// next id of `ids`.
    pub fn new(kind: JobKind, ids: &mut JobIdSource, now: i64) -> (job: Self)
        ensures
            job.id.id == old(ids).upcoming(),
            final(ids).upcoming() == old(ids).following(),
            job.kind == kind,
            job.creation_date == now,
    {
        PendingJob { id: JobId::new(ids), kind, creation_date: now }
    }

    /// Starts the job: it runs from the time `now` on.
    pub fn execute(self, now: i64) -> (job: ExecutingJob)
        ensures
            job.id == self.id,
            job.kind == self.kind,
            job.creation_date == self.creation_date,
            job.start_date == now,
    {
        ExecutingJob {
            id: self.id,
            kind: self.kind,
            creation_date: self.creation_date,
            start_date: now,
        }
    }
}

impl Clone for PendingJob {
    fn clone(&self) -> (r: Self)
        ensures
            r@ == self@,
    {
        PendingJob { id: self.id, kind: self.kind.clone(), creation_date: self.creation_date }
    }
}

/// A job that is running.
#[derive(Debug)]
pub struct ExecutingJob {
    pub id: JobId,
    pub kind: JobKind,
    /// When the job was made, in milliseconds since the start of 1970.
    pub creation_date: i64,
    /// When the job was started.
    pub start_date: i64,
}

impl Job for ExecutingJob {
    open spec fn job_id(&self) -> JobId {
        self.id
    }

    open spec fn job_kind(&self) -> JobKindText {
        self.kind@
    }

    fn id(&self) -> (r: &JobId) {
        &self.id
    }

    fn kind(&self) -> (r: &JobKind) {
        &self.kind
    }
}

impl Clone for ExecutingJob {
    fn clone(&self) -> (r: Self)
        ensures
            r.id == self.id,
            r.kind@ == self.kind@,
            r.creation_date == self.creation_date,
            r.start_date == self.start_date,
    {
        ExecutingJob {
            id: self.id,
            kind: self.kind.clone(),
            creation_date: self.creation_date,
            start_date: self.start_date,
        }
    }
}

/// A job that has run.
#[derive(Debug)]
pub struct CompletedJob {
    pub id: JobId,
    pub kind: JobKind,
    /// When the job was made, in milliseconds since the start of 1970.
    pub creation_date: i64,
    /// When the job was started.
    pub start_date: i64,
    /// When the job ended.
    pub completed_date: i64,
    pub status: CompletionStatus,
}

/// What a `CompletedJob` holds.
pub struct CompletedJobText {
    pub id: JobId,
    pub kind: JobKindText,
    pub creation_date: i64,
    pub start_date: i64,
    pub completed_date: i64,
    pub status: CompletionStatusText,
}

impl View for CompletedJob {
    type V = CompletedJobText;

    open spec fn view(&self) -> CompletedJobText {
        CompletedJobText {
            id: self.id,
            kind: self.kind@,
            creation_date: self.creation_date,
            start_date: self.start_date,
            completed_date: self.completed_date,
            status: self.status@,
        }
    }
}

impl Job for CompletedJob {
    open spec fn job_id(&self) -> JobId {
        self.id
    }

    open spec fn job_kind(&self) -> JobKindText {
        self.kind@
    }

    fn id(&self) -> (r: &JobId) {
        &self.id
    }

    fn kind(&self) -> (r: &JobKind) {
        &self.kind
    }
}

impl Clone for CompletedJob {
    fn clone(&self) -> (r: Self)
        ensures
            r@ == self@,
    {
        CompletedJob {
            id: self.id,
            kind: self.kind.clone(),
            creation_date: self.creation_date,
            start_date: self.start_date,
            completed_date: self.completed_date,
            status: self.status.clone(),
        }
    }
}

impl CompletedJob {
    /// The job `executing_job`, which has ended at the time `now` with the
    /// status `status`.
    pub fn new(executing_job: ExecutingJob, status: CompletionStatus, now: i64) -> (job: Self)
        ensures
            job.id == executing_job.id,
            job.kind == executing_job.kind,
            job.creation_date == executing_job.creation_date,
            job.start_date == executing_job.start_date,
            job.completed_date == now,
            job.status == status,
    {
        CompletedJob {
            id: executing_job.id,
            kind: executing_job.kind,
            creation_date: executing_job.creation_date,
            start_date: executing_job.start_date,
            completed_date: now,
            status,
        }
    }

    /// The status with which the job has ended.
    pub fn completion_status(&self) -> (r: CompletionStatus)
        ensures
            r@ == self.status@,
    {
        self.status.clone()
    }

    /// Whether the job has ended well.
    pub fn succeeded(&self) -> (r: bool)
        ensures
            r == (self.status@ is Success),
    {
        match self.status {
            CompletionStatus::Success => true,
            _ => false,
        }
    }
}

} // verus!

//! Runs all the tests: one after the other, without stopping at the first
//! that fails, and without colour.
use crate::configuration::BuildMode;
use crate::jobs::{
    words, CommandJobText, CompletionStatus, JobIdSource, JobKind, JobKindText, PendingJob,
    ProcessOutput,
};
use crate::shadow_copy_destination::ShadowCopyDestination;
use vstd::prelude::*;
use vstd::string::*;

verus! {

/// Runs all the tests: one after the other, without stopping at the first
/// that fails, and without colour.
#[derive(Debug)]
pub struct RunTestsJob {
    pub destination: ShadowCopyDestination,
    pub build_mode: BuildMode,
    /// What the command has put out, once it has run.
    pub output: String,
}

impl View for RunTestsJob {
    type V = CommandJobText;

    open spec fn view(&self) -> CommandJobText {
        CommandJobText {
            destination: self.destination@,
            build_mode: self.build_mode,
            output: self.output@,
        }
    }
}

/// The arguments that run the tests. They are the same in every build mode.
pub open spec fn run_tests_arguments(build_mode: BuildMode) -> Seq<Seq<char>> {
    seq![
        "test"@,
        "--no-fail-fast"@,
        "--"@,
        "--show-output"@,
        "--test-threads=1"@,
        "--color"@,
        "never"@,
    ]
}

impl RunTestsJob {
    /// A job of this kind that is made at the time `now` and waits to be
    /// run. It runs in the working directory of `destination`.
    pub fn new(
        destination: ShadowCopyDestination,
        build_mode: BuildMode,
        ids: &mut JobIdSource,
        now: i64,
    ) -> (job: PendingJob)
        ensures
            job.id.id == old(ids).upcoming(),
            final(ids).upcoming() == old(ids).following(),
            job.creation_date == now,
            job.kind@ == JobKindText::RunTests(
                CommandJobText { destination: destination@, build_mode, output: Seq::empty() },
            ),
    {
        let kind = JobKind::RunTests(
            RunTestsJob { destination, build_mode, output: String::new() },
        );
        PendingJob::new(kind, ids, now)
    }

    /// The arguments with which the command of this job is invoked.
    pub fn arguments(&self) -> (args: Vec<&'static str>)
        ensures
            words(args@) == run_tests_arguments(self.build_mode),
    {
        let mut args: Vec<&'static str> = Vec::new();
        args.push("test");
        args.push("--no-fail-fast");
        args.push("--");
        args.push("--show-output");
        args.push("--test-threads=1");
        args.push("--color");
        args.push("never");
        assert(words(args@) =~= run_tests_arguments(self.build_mode));
        args
    }

    /// Takes in what the command has put out. The job has failed if the
    /// command has, and for the same reason.
    pub fn execute(&mut self, output: ProcessOutput) -> (status: CompletionStatus)
        ensures
            final(self)@ == (CommandJobText { output: output.stdout@, ..old(self)@ }),
            status@ == output@.status(),
    {
        self.output = output.stdout;
        match output.failure {
            Some(message) => CompletionStatus::Error(message),
            None => CompletionStatus::Success,
        }
    }
}

impl Clone for RunTestsJob {
    fn clone(&self) -> (r: Self)
        ensures
            r@ == self@,
    {
        RunTestsJob {
            destination: self.destination.clone(),
            build_mode: self.build_mode,
            output: self.output.clone(),
        }
    }
}

} // verus!

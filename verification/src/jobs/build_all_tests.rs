//! Builds the tests but doesn't run them. This fails if the code that is
//! tested, or a test, does not compile.
use crate::configuration::BuildMode;
use crate::jobs::{
    words, CommandJobText, CompletionStatus, JobIdSource, JobKind, JobKindText, PendingJob,
    ProcessOutput,
};
use crate::shadow_copy_destination::ShadowCopyDestination;
use vstd::prelude::*;
use vstd::string::*;

verus! {

/// Builds the tests but doesn't run them. This fails if the code that is
/// tested, or a test, does not compile.
#[derive(Debug)]
pub struct BuildAllTestsJob {
    pub destination: ShadowCopyDestination,
    pub build_mode: BuildMode,
    /// What the command has put out, once it has run.
    pub output: String,
}

impl View for BuildAllTestsJob {
    type V = CommandJobText;

    open spec fn view(&self) -> CommandJobText {
        CommandJobText {
            destination: self.destination@,
            build_mode: self.build_mode,
            output: self.output@,
        }
    }
}

/// The arguments that build the tests without running them.
pub open spec fn build_all_tests_arguments(build_mode: BuildMode) -> Seq<Seq<char>> {
    let always = seq!["test"@, "--no-run"@, "--color"@, "never"@];
    if build_mode == BuildMode::Release {
        always.push("--release"@)
    } else {
        always
    }
}

impl BuildAllTestsJob {
    /// A job of this kind that is made at the time `now` and waits to be
    /// run. It runs in the working directory of `destination`.
    pub fn new(
        destination: ShadowCopyDestination,
        build_mode: BuildMode,
        ids: &mut JobIdSource,
        now: i64,
    ) -> (job: PendingJob)
        ensures
            job.id.id == old(ids).upcoming(),
            final(ids).upcoming() == old(ids).following(),
            job.creation_date == now,
            job.kind@ == JobKindText::BuildAllTests(
                CommandJobText { destination: destination@, build_mode, output: Seq::empty() },
            ),
    {
        let kind = JobKind::BuildAllTests(
            BuildAllTestsJob { destination, build_mode, output: String::new() },
        );
        PendingJob::new(kind, ids, now)
    }

    /// The arguments with which the command of this job is invoked.
    pub fn arguments(&self) -> (args: Vec<&'static str>)
        ensures
            words(args@) == build_all_tests_arguments(self.build_mode),
    {
        let mut args: Vec<&'static str> = Vec::new();
        args.push("test");
        args.push("--no-run");
        args.push("--color");
        args.push("never");
        if self.build_mode == BuildMode::Release {
            args.push("--release");
        }
        assert(words(args@) =~= build_all_tests_arguments(self.build_mode));
        args
    }

    /// Takes in what the command has put out. The job has failed if the
    /// command has, and for the same reason.
    pub fn execute(&mut self, output: ProcessOutput) -> (status: CompletionStatus)
        ensures
            final(self)@ == (CommandJobText { output: output.stdout@, ..old(self)@ }),
            status@ == output@.status(),
    {
        self.output = output.stdout;
        match output.failure {
            Some(message) => CompletionStatus::Error(message),
            None => CompletionStatus::Success,
        }
    }
}

impl Clone for BuildAllTestsJob {
    fn clone(&self) -> (r: Self)
        ensures
            r@ == self@,
    {
        BuildAllTestsJob {
            destination: self.destination.clone(),
            build_mode: self.build_mode,
            output: self.output.clone(),
        }
    }
}

} // verus!

//! Lists all the tests. Does not run any of them.
use crate::configuration::BuildMode;
use crate::jobs::{
    words, CommandJobText, CompletionStatus, CompletionStatusText, JobIdSource, JobKind,
    JobKindText, PendingJob, ProcessOutput, ProcessOutputText,
};
use crate::shadow_copy_destination::ShadowCopyDestination;
use crate::parse_error::{ParseError, ParseFailure};
use crate::test_list::{inventories, listing_of, parse_test_list, Tests, TestsText};
use crate::text::{bytes_of, string_bytes};
use vstd::prelude::*;
use vstd::string::*;

verus! {

/// Lists all the tests. Does not run any of them.
#[derive(Debug)]
pub struct ListAllTestsJob {
    pub destination: ShadowCopyDestination,
    pub build_mode: BuildMode,
    /// What the command has put out, once it has run.
    pub output: String,
}

impl View for ListAllTestsJob {
    type V = CommandJobText;

    open spec fn view(&self) -> CommandJobText {
        CommandJobText {
            destination: self.destination@,
            build_mode: self.build_mode,
            output: self.output@,
        }
    }
}

/// The arguments that list the tests.
pub open spec fn list_all_tests_arguments(build_mode: BuildMode) -> Seq<Seq<char>> {
    let before = seq!["test"@, "--color"@, "never"@];
    let after = seq!["--"@, "--list"@];
    if build_mode == BuildMode::Release {
        before.push("--release"@) + after
    } else {
        before + after
    }
}

impl ListAllTestsJob {
    /// A job of this kind that is made at the time `now` and waits to be
    /// run. It runs in the working directory of `destination`.
    pub fn new(
        destination: ShadowCopyDestination,
        build_mode: BuildMode,
        ids: &mut JobIdSource,
        now: i64,
    ) -> (job: PendingJob)
        ensures
            job.id.id == old(ids).upcoming(),
            final(ids).upcoming() == old(ids).following(),
            job.creation_date == now,
            job.kind@ == JobKindText::ListAllTests(
                CommandJobText { destination: destination@, build_mode, output: Seq::empty() },
            ),
    {
        let kind = JobKind::ListAllTests(
            ListAllTestsJob { destination, build_mode, output: String::new() },
        );
        PendingJob::new(kind, ids, now)
    }

    /// The arguments with which the command of this job is invoked.
    pub fn arguments(&self) -> (args: Vec<&'static str>)
        ensures
            words(args@) == list_all_tests_arguments(self.build_mode),
    {
        let mut args: Vec<&'static str> = Vec::new();
        args.push("test");
        args.push("--color");
        args.push("never");
        if self.build_mode == BuildMode::Release {
            args.push("--release");
        }
        args.push("--");
        args.push("--list");
        assert(words(args@) =~= list_all_tests_arguments(self.build_mode));
        args
    }

    /// What becomes of the job when its command has put out `output`: the
    /// job has failed if the command has, and for the same reason; it has
    /// failed too if what the command has put out is no listing, and then
    /// the reason is what the parser says of it.
    pub open spec fn status_after(output: ProcessOutputText) -> CompletionStatusText {
        match output.failure {
            Some(message) => CompletionStatusText::Error(message),
            None => match listing_of(bytes_of(output.stdout)) {
                Ok(_) => CompletionStatusText::Success,
                Err(failure) => CompletionStatusText::Error(failure.description()),
            },
        }
    }

    /// Takes in what the command has put out, and parses it.
    pub fn execute(&mut self, output: ProcessOutput) -> (status: CompletionStatus)
        ensures
            final(self)@ == (CommandJobText { output: output.stdout@, ..old(self)@ }),
            status@ == Self::status_after(output@),
    {
        self.output = output.stdout;
        match output.failure {
            Some(message) => CompletionStatus::Error(message),
            None => match parse_test_list(self.output.as_str()) {
                Ok(_) => CompletionStatus::Success,
                Err(e) => CompletionStatus::Error(e.describe()),
            },
        }
    }

    /// Parses the listing that the command has put out and returns the
    /// set of tests.
    pub fn parse_tests(&self) -> (r: Result<Vec<Tests<'_>>, ParseError>)
        ensures
            match r {
                Ok(tests) => listing_of(string_bytes(&self.output)) == Ok::<
                    Seq<TestsText>,
                    ParseFailure,
                >(inventories(tests@)),
                Err(e) => listing_of(string_bytes(&self.output)) == Err::<
                    Seq<TestsText>,
                    ParseFailure,
                >(e@),
            },
    {
        parse_test_list(self.output.as_str())
    }
}

impl Clone for ListAllTestsJob {
    fn clone(&self) -> (r: Self)
        ensures
            r@ == self@,
    {
        ListAllTestsJob {
            destination: self.destination.clone(),
            build_mode: self.build_mode,
            output: self.output.clone(),
        }
    }
}

} // verus!

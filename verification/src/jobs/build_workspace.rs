//! Builds the crate (or workspace). This makes the final product(s)
//! available quickly, as a convenience to the user.
use crate::configuration::BuildMode;
use crate::jobs::{
    words, CommandJobText, CompletionStatus, JobIdSource, JobKind, JobKindText, PendingJob,
    ProcessOutput,
};
use crate::shadow_copy_destination::ShadowCopyDestination;
use vstd::prelude::*;
use vstd::string::*;

verus! {

/// Builds the crate (or workspace). This makes the final product(s)
/// available quickly, as a convenience to the user.
#[derive(Debug)]
pub struct BuildWorkspaceJob {
    pub destination: ShadowCopyDestination,
    pub build_mode: BuildMode,
    /// What the command has put out, once it has run.
    pub output: String,
}

impl View for BuildWorkspaceJob {
    type V = CommandJobText;

    open spec fn view(&self) -> CommandJobText {
        CommandJobText {
            destination: self.destination@,
            build_mode: self.build_mode,
            output: self.output@,
        }
    }
}

/// The arguments that build the workspace.
pub open spec fn build_workspace_arguments(build_mode: BuildMode) -> Seq<Seq<char>> {
    let always = seq!["build"@, "--color"@, "never"@];
    if build_mode == BuildMode::Release {
        always.push("--release"@)
    } else {
        always
    }
}

impl BuildWorkspaceJob {
    /// A job of this kind that is made at the time `now` and waits to be
    /// run. It runs in the working directory of `destination`.
    pub fn new(
        destination: ShadowCopyDestination,
        build_mode: BuildMode,
        ids: &mut JobIdSource,
        now: i64,
    ) -> (job: PendingJob)
        ensures
            job.id.id == old(ids).upcoming(),
            final(ids).upcoming() == old(ids).following(),
            job.creation_date == now,
            job.kind@ == JobKindText::BuildWorkspace(
                CommandJobText { destination: destination@, build_mode, output: Seq::empty() },
            ),
    {
        let kind = JobKind::BuildWorkspace(
            BuildWorkspaceJob { destination, build_mode, output: String::new() },
        );
        PendingJob::new(kind, ids, now)
    }

    /// The arguments with which the command of this job is invoked.
    pub fn arguments(&self) -> (args: Vec<&'static str>)
        ensures
            words(args@) == build_workspace_arguments(self.build_mode),
    {
        let mut args: Vec<&'static str> = Vec::new();
        args.push("build");
        args.push("--color");
        args.push("never");
        if self.build_mode == BuildMode::Release {
            args.push("--release");
        }
        assert(words(args@) =~= build_workspace_arguments(self.build_mode));
        args
    }

    /// Takes in what the command has put out. The job has failed if the
    /// command has, and for the same reason.
    pub fn execute(&mut self, output: ProcessOutput) -> (status: CompletionStatus)
        ensures
            final(self)@ == (CommandJobText { output: output.stdout@, ..old(self)@ }),
            status@ == output@.status(),
    {
        self.output = output.stdout;
        match output.failure {
            Some(message) => CompletionStatus::Error(message),
            None => CompletionStatus::Success,
        }
    }
}

impl Clone for BuildWorkspaceJob {
    fn clone(&self) -> (r: Self)
        ensures
            r@ == self@,
    {
        BuildWorkspaceJob {
            destination: self.destination.clone(),
            build_mode: self.build_mode,
            output: self.output.clone(),
        }
    }
}

} // verus!

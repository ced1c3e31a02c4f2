use rtest::configuration::BuildMode;
use rtest::jobs::file_sync::{SyncAction, SyncOutcome};
use rtest::jobs::{
    program, BuildAllTestsJob, BuildWorkspaceJob, CompletedJob, CompletionStatus, FileSyncJob, Job,
    JobId, JobIdSource, JobKind, ListAllTestsJob, PendingJob, ProcessOutput, RunTestsJob,
    ShadowCopyJob,
};
use rtest::paths::ComponentPath;
use rtest::shadow_copy_destination::ShadowCopyDestination;
use rtest::source_directory_watcher::FileSyncEvent;

fn path(text: &str) -> ComponentPath {
    ComponentPath::from_components(text.split('/').map(|c| c.to_string()).collect())
}

fn show(path: &ComponentPath) -> String {
    path.components.join("/")
}

fn destination() -> ShadowCopyDestination {
    ShadowCopyDestination::with_named_directory(path("/src"), path("/mirror"))
}

fn ended_well(stdout: &str) -> ProcessOutput {
    ProcessOutput { stdout: stdout.to_string(), failure: None }
}

fn failed(stdout: &str, why: &str) -> ProcessOutput {
    ProcessOutput { stdout: stdout.to_string(), failure: Some(why.to_string()) }
}

fn is_success(status: &CompletionStatus) -> bool {
    matches!(status, CompletionStatus::Success)
}

fn error_of(status: &CompletionStatus) -> String {
    match status {
        CompletionStatus::Error(message) => message.clone(),
        other => panic!("unexpected {:?}", other),
    }
}

#[test]
fn ids_count_up_from_one() {
    let mut ids = JobIdSource::new();
    assert_eq!(JobId::new(&mut ids), JobId { id: 1 });
    assert_eq!(JobId::new(&mut ids), JobId { id: 2 });
    assert_eq!(JobId::new(&mut ids).id, 3);
    let a = BuildWorkspaceJob::new(destination(), BuildMode::Debug, &mut ids, 0);
    let b = RunTestsJob::new(destination(), BuildMode::Debug, &mut ids, 0);
    assert_eq!(a.id.id, 4);
    assert_eq!(b.id.id, 5);
    assert_eq!(a.id().id, 4);
}

#[test]
fn the_jobs_invoke_cargo() {
    assert_eq!(program(), "cargo");
}

#[test]
fn arguments_of_the_workspace_build() {
    let mut ids = JobIdSource::new();
    match BuildWorkspaceJob::new(destination(), BuildMode::Debug, &mut ids, 0).kind {
        JobKind::BuildWorkspace(job) => assert_eq!(job.arguments(), vec!["build", "--color", "never"]),
        other => panic!("unexpected {:?}", other),
    }
    match BuildWorkspaceJob::new(destination(), BuildMode::Release, &mut ids, 0).kind {
        JobKind::BuildWorkspace(job) => {
            assert_eq!(job.arguments(), vec!["build", "--color", "never", "--release"]);
            assert_eq!(show(job.destination.cwd()), "/mirror");
        }
        other => panic!("unexpected {:?}", other),
    }
}

#[test]
fn arguments_of_the_build_of_the_tests() {
    let mut ids = JobIdSource::new();
    match BuildAllTestsJob::new(destination(), BuildMode::Debug, &mut ids, 0).kind {
        JobKind::BuildAllTests(job) => {
            assert_eq!(job.arguments(), vec!["test", "--no-run", "--color", "never"])
        }
        other => panic!("unexpected {:?}", other),
    }
    match BuildAllTestsJob::new(destination(), BuildMode::Release, &mut ids, 0).kind {
        JobKind::BuildAllTests(job) => {
            assert_eq!(job.arguments(), vec!["test", "--no-run", "--color", "never", "--release"])
        }
        other => panic!("unexpected {:?}", other),
    }
}

#[test]
fn arguments_of_the_listing() {
    let mut ids = JobIdSource::new();
    match ListAllTestsJob::new(destination(), BuildMode::Debug, &mut ids, 0).kind {
        JobKind::ListAllTests(job) => {
            assert_eq!(job.arguments(), vec!["test", "--color", "never", "--", "--list"])
        }
        other => panic!("unexpected {:?}", other),
    }
    match ListAllTestsJob::new(destination(), BuildMode::Release, &mut ids, 0).kind {
        JobKind::ListAllTests(job) => assert_eq!(
            job.arguments(),
            vec!["test", "--color", "never", "--release", "--", "--list"]
        ),
        other => panic!("unexpected {:?}", other),
    }
}

#[test]
fn arguments_of_the_run() {
    let mut ids = JobIdSource::new();
    for mode in [BuildMode::Debug, BuildMode::Release] {
        match RunTestsJob::new(destination(), mode, &mut ids, 0).kind {
            JobKind::RunTests(job) => assert_eq!(
                job.arguments(),
                vec![
                    "test",
                    "--no-fail-fast",
                    "--",
                    "--show-output",
                    "--test-threads=1",
                    "--color",
                    "never"
                ]
            ),
            other => panic!("unexpected {:?}", other),
        }
    }
}

#[test]
fn a_command_job_keeps_what_was_put_out() {
    let mut ids = JobIdSource::new();
    match BuildAllTestsJob::new(destination(), BuildMode::Debug, &mut ids, 0).kind {
        JobKind::BuildAllTests(mut job) => {
            assert_eq!(job.output, "");
            let status = job.execute(ended_well("Compiling x\nFinished\n"));
            assert!(is_success(&status));
            assert_eq!(job.output, "Compiling x\nFinished\n");
            let status = job.execute(failed("error[E0308]\n", "exited with code 101"));
            assert_eq!(error_of(&status), "exited with code 101");
            assert_eq!(job.output, "error[E0308]\n");
            let copy = job.clone();
            assert_eq!(copy.output, "error[E0308]\n");
            assert_eq!(copy.build_mode, BuildMode::Debug);
        }
        other => panic!("unexpected {:?}", other),
    }
    match RunTestsJob::new(destination(), BuildMode::Debug, &mut ids, 0).kind {
        JobKind::RunTests(mut job) => {
            assert_eq!(error_of(&job.execute(failed("test a ... FAILED", "exit 101"))), "exit 101");
            assert_eq!(job.output, "test a ... FAILED");
            assert!(is_success(&job.execute(ended_well("test a ... ok"))));
        }
        other => panic!("unexpected {:?}", other),
    }
    match BuildWorkspaceJob::new(destination(), BuildMode::Debug, &mut ids, 0).kind {
        JobKind::BuildWorkspace(mut job) => {
            assert!(is_success(&job.execute(ended_well("ok"))));
            assert_eq!(error_of(&job.execute(failed("", "cannot start"))), "cannot start");
        }
        other => panic!("unexpected {:?}", other),
    }
}

#[test]
fn a_listing_job_parses_what_was_put_out() {
    let mut ids = JobIdSource::new();
    match ListAllTestsJob::new(destination(), BuildMode::Debug, &mut ids, 0).kind {
        JobKind::ListAllTests(mut job) => {
            let status = job.execute(ended_well("Running /a-0123456789abcdef\nx: test\n1 test, 0 benchmarks\n"));
            assert!(is_success(&status));
            let tests = job.parse_tests().unwrap();
            assert_eq!(tests.len(), 1);
            assert_eq!(tests[0].tests, vec!["x"]);

            let status = job.execute(ended_well("Running /a-0123456789abcdef\nx: test\n2 tests, 0 benchmarks\n"));
            assert_eq!(
                error_of(&status),
                "UnitTestMiscount on line 3: Actual found test count: 1"
            );
            assert!(job.parse_tests().is_err());

            let status = job.execute(ended_well("\n\nRunning /a-0123\n"));
            assert_eq!(error_of(&status), "MalformedUuid on line 3");

            let status = job.execute(ended_well("Running a\nRunning b\n"));
            assert_eq!(error_of(&status), "SectionOverrun on line 2");

            let status = job.execute(ended_well("Doc-tests a\nnonsense\n"));
            assert_eq!(error_of(&status), "MalformedDocTestLine on line 2");

            let status = job.execute(failed("Running a\nRunning b\n", "exit 1"));
            assert_eq!(error_of(&status), "exit 1");
            assert_eq!(job.output, "Running a\nRunning b\n");
        }
        other => panic!("unexpected {:?}", other),
    }
}

#[test]
fn process_output_says_whether_it_ended_well() {
    assert!(ended_well("").success());
    assert!(!failed("", "no").success());
}

#[test]
fn a_shadow_copy_counts_the_files() {
    let mut ids = JobIdSource::new();
    match ShadowCopyJob::new(destination(), &mut ids, 0).kind {
        JobKind::ShadowCopy(mut job) => {
            assert_eq!(job.num_files_copied, 0);
            assert!(job.visit(&path("/src/a"), true).is_none());
            assert_eq!(job.num_files_copied, 0);
            let copy = job.visit(&path("/src/a/b.rs"), false).unwrap();
            assert_eq!(show(&copy.from), "/src/a/b.rs");
            assert_eq!(show(&copy.to), "/mirror/a/b.rs");
            assert_eq!(job.num_files_copied, 1);
            assert!(job.visit(&path("/elsewhere/c.rs"), false).is_none());
            assert_eq!(job.num_files_copied, 2);
            job.num_files_copied = usize::MAX;
            assert!(job.visit(&path("/src/d.rs"), false).is_some());
            assert_eq!(job.num_files_copied, usize::MAX);
            assert!(is_success(&job.execute(true)));
            assert_eq!(
                error_of(&job.execute(false)),
                "The source directory is not a directory"
            );
            assert_eq!(job.clone().num_files_copied, usize::MAX);
        }
        other => panic!("unexpected {:?}", other),
    }
}

#[test]
fn a_file_sync_copies_or_removes() {
    let mut ids = JobIdSource::new();
    let update = FileSyncEvent::FileUpdate(path("/src/a/b.rs"));
    match FileSyncJob::new(destination(), update, &mut ids, 0).kind {
        JobKind::FileSync(mut job) => {
            match job.action() {
                SyncAction::Copy(copy) => {
                    assert_eq!(show(&copy.from), "/src/a/b.rs");
                    assert_eq!(show(&copy.to), "/mirror/a/b.rs");
                }
                other => panic!("unexpected {:?}", other),
            }
            assert!(is_success(&job.execute(SyncOutcome::Done)));
            assert_eq!(error_of(&job.execute(SyncOutcome::Failed)), "Copying the file failed");
            assert_eq!(error_of(&job.execute(SyncOutcome::NotAFile)), "The path is not a file");
            assert_eq!(error_of(&job.execute(SyncOutcome::NoPlace)), "Copying the file failed");
        }
        other => panic!("unexpected {:?}", other),
    }
    let remove = FileSyncEvent::Remove(path("/src/a"));
    match FileSyncJob::new(destination(), remove, &mut ids, 0).kind {
        JobKind::FileSync(mut job) => {
            match job.action() {
                SyncAction::Remove(p) => assert_eq!(show(&p), "/mirror/a"),
                other => panic!("unexpected {:?}", other),
            }
            assert!(is_success(&job.execute(SyncOutcome::Done)));
            assert_eq!(error_of(&job.execute(SyncOutcome::Failed)), "Removing the path failed");
            assert_eq!(error_of(&job.execute(SyncOutcome::NotAFile)), "Removing the path failed");
            assert_eq!(error_of(&job.execute(SyncOutcome::NoPlace)), "Removing the path failed");
            match job.clone().action() {
                SyncAction::Remove(p) => assert_eq!(show(&p), "/mirror/a"),
                other => panic!("unexpected {:?}", other),
            }
        }
        other => panic!("unexpected {:?}", other),
    }
    let outside = FileSyncEvent::Remove(path("/other/a"));
    match FileSyncJob::new(destination(), outside, &mut ids, 0).kind {
        JobKind::FileSync(job) => assert!(matches!(job.action(), SyncAction::Nothing)),
        other => panic!("unexpected {:?}", other),
    }
    let outside = FileSyncEvent::FileUpdate(path("/src"));
    match FileSyncJob::new(destination(), outside, &mut ids, 0).kind {
        JobKind::FileSync(job) => assert!(matches!(job.action(), SyncAction::Nothing)),
        other => panic!("unexpected {:?}", other),
    }
}

#[test]
fn a_job_goes_from_pending_to_completed() {
    let mut ids = JobIdSource::new();
    let pending: PendingJob = RunTestsJob::new(destination(), BuildMode::Debug, &mut ids, 1_000);
    let copy = pending.clone();
    assert_eq!(copy.id, pending.id);
    assert_eq!(copy.creation_date, 1_000);
    let executing = pending.execute(2_000);
    assert_eq!(executing.id.id, 1);
    assert!(matches!(executing.kind(), JobKind::RunTests(_)));
    assert_eq!(executing.creation_date, 1_000);
    assert_eq!(executing.start_date, 2_000);
    let running = executing.clone();
    assert_eq!(running.start_date, 2_000);
    let completed =
        CompletedJob::new(executing, CompletionStatus::from("it broke".to_string()), 3_000);
    assert_eq!(completed.id().id, 1);
    assert!(!completed.succeeded());
    assert_eq!(error_of(&completed.completion_status()), "it broke");
    assert_eq!(completed.creation_date, 1_000);
    assert_eq!(completed.start_date, 2_000);
    assert_eq!(completed.completed_date, 3_000);
    assert!(matches!(completed.kind(), JobKind::RunTests(_)));
    let copy = completed.clone();
    assert_eq!(copy.completed_date, 3_000);
    assert_eq!(error_of(&copy.status), "it broke");

    let executing =
        BuildWorkspaceJob::new(destination(), BuildMode::Debug, &mut ids, -5).execute(-4);
    let completed = CompletedJob::new(executing, CompletionStatus::Success, -3);
    assert!(completed.succeeded());
    assert!(is_success(&completed.completion_status()));
    assert_eq!(completed.creation_date, -5);
    let executing = BuildWorkspaceJob::new(destination(), BuildMode::Debug, &mut ids, 0).execute(0);
    let completed = CompletedJob::new(executing, CompletionStatus::Unknown, 0);
    assert!(!completed.succeeded());
    assert!(matches!(completed.completion_status().clone(), CompletionStatus::Unknown));
}

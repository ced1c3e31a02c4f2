use rtest::configuration::{new, BuildMode, CommandLineArguments, CompilationMode};
use rtest::paths::ComponentPath;
use rtest::thread_clutch::{ThreadClutch, ThreadClutchInner};
use rtest::utils::plural_s;

fn path(text: &str) -> ComponentPath {
    ComponentPath::from_components(text.split('/').map(|c| c.to_string()).collect())
}

fn show(path: &ComponentPath) -> String {
    path.components.join("/")
}

fn arguments(do_shadow_copy: bool, destination: Option<&str>) -> CommandLineArguments {
    CommandLineArguments {
        do_shadow_copy,
        source: path("/work/project"),
        destination: destination.map(path),
        build_mode: CompilationMode::Release,
        test_mode: CompilationMode::Debug,
    }
}

#[test]
fn compilation_modes_have_names() {
    assert_eq!(CompilationMode::from_str("none"), Ok(CompilationMode::Nothing));
    assert_eq!(CompilationMode::from_str("debug"), Ok(CompilationMode::Debug));
    assert_eq!(CompilationMode::from_str("release"), Ok(CompilationMode::Release));
    assert_eq!(CompilationMode::from_str("both"), Ok(CompilationMode::Both));
    assert_eq!(CompilationMode::from_str("Release"), Ok(CompilationMode::Release));
    assert_eq!(CompilationMode::from_str("BOTH"), Ok(CompilationMode::Both));
    assert_eq!(CompilationMode::from_str("dEbUg"), Ok(CompilationMode::Debug));
    assert_eq!(CompilationMode::from_str(""), Err("no matching CompilationMode"));
    assert_eq!(CompilationMode::from_str("debug "), Err("no matching CompilationMode"));
    assert_eq!(CompilationMode::from_str("releas"), Err("no matching CompilationMode"));
    assert_eq!(CompilationMode::from_str("n\u{f6}ne"), Err("no matching CompilationMode"));
    assert_eq!(CompilationMode::from_str("bo4h"), Err("no matching CompilationMode"));
    assert_eq!(CompilationMode::from_str("BOTH@"), Err("no matching CompilationMode"));
}

#[test]
fn only_release_builds_in_release_mode() {
    assert_eq!(CompilationMode::Nothing.build_mode(), BuildMode::Debug);
    assert_eq!(CompilationMode::Debug.build_mode(), BuildMode::Debug);
    assert_eq!(CompilationMode::Release.build_mode(), BuildMode::Release);
    assert_eq!(CompilationMode::Both.build_mode(), BuildMode::Debug);
}

#[test]
fn destination_follows_the_arguments() {
    let args = arguments(false, Some("/mirror"));
    assert!(!args.needs_temp_directory());
    let d = args.make_shadow_copy_destination(None).unwrap();
    assert!(!d.is_copying());
    assert_eq!(show(d.cwd()), "/work/project");

    let args = arguments(true, Some("/mirror"));
    assert!(!args.needs_temp_directory());
    let d = args.make_shadow_copy_destination(Some(path("/tmp/t"))).unwrap();
    assert!(d.is_copying());
    assert_eq!(show(d.cwd()), "/mirror");

    let args = arguments(true, None);
    assert!(args.needs_temp_directory());
    assert!(args.make_shadow_copy_destination(None).is_none());
    let d = args.make_shadow_copy_destination(Some(path("/tmp/t"))).unwrap();
    assert!(d.is_copying());
    assert_eq!(show(d.cwd()), "/tmp/t");
    assert_eq!(show(d.source_directory()), "/work/project");
}

#[test]
fn configuration_holds_the_arguments() {
    assert!(new(arguments(true, None), None).is_none());
    let mut c = new(arguments(true, None), Some(path("/tmp/one"))).unwrap();
    assert_eq!(c.inner.build_mode(), CompilationMode::Release);
    assert_eq!(c.inner.test_mode(), CompilationMode::Debug);
    assert_eq!(show(c.inner.source_directory()), "/work/project");
    assert_eq!(show(c.inner.destination.cwd()), "/tmp/one");
    assert!(!c.inner.reset_destination(None));
    assert_eq!(show(c.inner.destination.cwd()), "/tmp/one");
    assert!(c.inner.reset_destination(Some(path("/tmp/two"))));
    assert_eq!(show(c.inner.destination.cwd()), "/tmp/two");
}

#[test]
fn plural_of_numbers() {
    assert_eq!(plural_s(0), "s");
    assert_eq!(plural_s(1), "");
    assert_eq!(plural_s(2), "s");
    assert_eq!(plural_s(usize::MAX), "s");
}

#[test]
fn clutch_pauses_and_releases() {
    let mut clutch = ThreadClutch::new();
    assert!(clutch.is_running());
    assert!(!clutch.is_paused());
    assert!(clutch.wait_for_release());
    clutch.pause_threads();
    assert!(clutch.is_paused());
    assert!(!clutch.is_running());
    assert!(!clutch.wait_for_release());
    clutch.pause_threads();
    assert!(clutch.is_paused());
    clutch.release_threads();
    assert!(clutch.is_running());
    assert!(clutch.wait_for_release());
    let paused = ThreadClutch::new_paused();
    assert!(paused.is_paused());
    assert!(!paused.wait_for_release());
}

#[test]
fn clutch_state_pauses_and_releases() {
    let mut inner = ThreadClutchInner::new();
    assert!(inner.is_running());
    assert!(inner.wait_for_release());
    inner.pause_thread();
    assert!(inner.is_paused());
    assert!(!inner.wait_for_release());
    inner.release_thread();
    assert!(!inner.is_paused());
    assert!(inner.is_running());
    let paused = ThreadClutchInner::new_paused();
    assert!(paused.is_paused());
    assert!(!paused.is_running());
}

use rtest::parse_context::ParseContext;
use rtest::state::{CrateName, CrateTests, InnerState, State, TestState, UnitTest};
use rtest::test_list::parse_test_list;

fn names(state: &InnerState) -> Vec<String> {
    state.crates().iter().map(|c| c.crate_name.full_name.clone()).collect()
}

fn unit_tests(state: &InnerState, at: usize) -> Vec<String> {
    state.crates()[at].unit_tests.iter().map(|t| t.name.clone()).collect()
}

fn doc_tests(state: &InnerState, at: usize) -> Vec<String> {
    state.crates()[at].doc_tests.iter().map(|t| t.name.clone()).collect()
}

fn update(state: &mut InnerState, listing: &str) {
    let tests = parse_test_list(listing).unwrap();
    state.update_test_list(&tests);
}

#[test]
fn a_new_state_knows_nothing() {
    assert!(InnerState::new().crates().is_empty());
    assert!(State::new().inner.crates().is_empty());
}

#[test]
fn a_new_test_has_not_run() {
    let test = UnitTest::new("a::b");
    assert_eq!(test.name, "a::b");
    assert_eq!(test.state, TestState::NotRun);
    assert_eq!(test.num_times_executed, 0);
}

#[test]
fn crate_names_are_taken_over() {
    let ctx = ParseContext::new("");
    let parsed = rtest::crate_name::CrateName::parse("/deps/lib-0123456789abcdef", &ctx).unwrap();
    let owned = CrateName::new(&parsed);
    assert_eq!(owned.full_name, "/deps/lib-0123456789abcdef");
    assert_eq!(owned.name, "/deps/lib");
    assert_eq!(owned.uuid, "0123456789abcdef");
    assert_eq!(owned.basename, "lib");
    let tests = CrateTests::new(&parsed);
    assert_eq!(tests.crate_name.full_name, "/deps/lib-0123456789abcdef");
    assert!(tests.unit_tests.is_empty());
    assert!(tests.doc_tests.is_empty());
}

#[test]
fn a_listing_brings_its_tests() {
    let mut state = InnerState::new();
    update(
        &mut state,
        "Running /deps/lib-0123456789abcdef\na::x: test\na::y: test\n2 tests, 0 benchmarks\nDoc-tests lib\nsrc/lib.rs - f (line 1): test\n1 test, 0 benchmarks\n",
    );
    assert_eq!(names(&state), vec!["/deps/lib-0123456789abcdef"]);
    assert_eq!(unit_tests(&state, 0), vec!["a::x", "a::y"]);
    assert_eq!(doc_tests(&state, 0), vec!["f"]);
    assert_eq!(state.crates()[0].unit_tests[0].state, TestState::NotRun);
    assert_eq!(state.crates()[0].unit_tests[0].num_times_executed, 0);
}

#[test]
fn tests_that_are_listed_no_more_are_gone() {
    let mut state = InnerState::new();
    update(&mut state, "Running /deps/lib-0123456789abcdef\na: test\nb: test\nc: test\n3 tests, 0 benchmarks\n");
    update(&mut state, "Running /deps/lib-0123456789abcdef\nc: test\nd: test\na: test\n3 tests, 0 benchmarks\n");
    assert_eq!(names(&state), vec!["/deps/lib-0123456789abcdef"]);
    assert_eq!(unit_tests(&state, 0), vec!["c", "d", "a"]);
    update(&mut state, "Running /deps/lib-0123456789abcdef\n0 tests, 0 benchmarks\n");
    assert!(unit_tests(&state, 0).is_empty());
}

#[test]
fn a_name_that_is_listed_twice_is_one_test() {
    let mut state = InnerState::new();
    update(&mut state, "Running /deps/lib-0123456789abcdef\na: test\nb: test\na: test\n3 tests, 0 benchmarks\n");
    assert_eq!(unit_tests(&state, 0), vec!["a", "b"]);
}

#[test]
fn crates_are_kept_in_the_order_of_their_names() {
    let mut state = State::new();
    let tests = parse_test_list(
        "Running /deps/m-0000000000000001\n0 tests, 0 benchmarks\nRunning /deps/z-0000000000000002\n0 tests, 0 benchmarks\nRunning /deps/a-0000000000000003\n0 tests, 0 benchmarks\nRunning /deps/m-0000000000000004\n0 tests, 0 benchmarks\nRunning /deps/ma-0000000000000005\n0 tests, 0 benchmarks\nRunning /deps/M-0000000000000006\n0 tests, 0 benchmarks\n",
    )
    .unwrap();
    state.update_test_list(&tests);
    assert_eq!(
        names(&state.inner),
        vec![
            "/deps/M-0000000000000006",
            "/deps/a-0000000000000003",
            "/deps/m-0000000000000001",
            "/deps/m-0000000000000004",
            "/deps/ma-0000000000000005",
            "/deps/z-0000000000000002",
        ]
    );
    state.update_test_list(&tests);
    assert_eq!(state.inner.crates().len(), 6);
}

#[test]
fn a_crate_that_is_listed_no_more_stays() {
    let mut state = InnerState::new();
    update(&mut state, "Running /deps/b-0000000000000001\nx: test\n1 test, 0 benchmarks\n");
    update(&mut state, "Running /deps/a-0000000000000002\ny: test\n1 test, 0 benchmarks\n");
    assert_eq!(names(&state), vec!["/deps/a-0000000000000002", "/deps/b-0000000000000001"]);
    assert_eq!(unit_tests(&state, 0), vec!["y"]);
    assert_eq!(unit_tests(&state, 1), vec!["x"]);
    let only = parse_test_list("Running /deps/b-0000000000000001\nz: test\n1 test, 0 benchmarks\n").unwrap();
    state.update_test_list_for_crate(&only[0]);
    assert_eq!(unit_tests(&state, 0), vec!["y"]);
    assert_eq!(unit_tests(&state, 1), vec!["z"]);
}

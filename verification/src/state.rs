//! The tests that are known, crate by crate, and what is known of each.
//!
//! The state is brought up to date from each listing of the tests. A test
//! that a listing names again keeps what was known of it, a test that it
//! names for the first time is new, and a test that it names no more is gone.
//! The crates are kept in the order of their names.
use crate::crate_name::CrateNameText;
use crate::doc_test::{DocTest, DocTestText};
use crate::test_list::{inventories, Tests, TestsText};
use crate::text::{same_text, string_bytes, texts};
use vstd::prelude::*;
use vstd::string::*;

verus! {

/// What is known of how a test went.
#[derive(Debug, Clone, Copy, PartialEq, Eq, Structural)]
pub enum TestState {
    NotRun,
    CompilationFailing,
    Running,
    Passed,
    Failed,
    Ignored,
}

/// A test, and what is known of it.
#[derive(Debug)]
pub struct UnitTest {
    pub name: String,
    pub state: TestState,
    pub num_times_executed: usize,
}

/// What a `UnitTest` holds.
pub struct UnitTestText {
    pub name: Seq<u8>,
    pub state: TestState,
    pub num_times_executed: usize,
}

impl View for UnitTest {
    type V = UnitTestText;

    open spec fn view(&self) -> UnitTestText {
        UnitTestText {
            name: string_bytes(&self.name),
            state: self.state,
            num_times_executed: self.num_times_executed,
        }
    }
}

/// A test of which nothing is known but its name.
pub open spec fn fresh_test(name: Seq<u8>) -> UnitTestText {
    UnitTestText { name, state: TestState::NotRun, num_times_executed: 0 }
}

impl UnitTest {
    /// A test of the name `name` that has not run yet.
    pub fn new(name: &str) -> (r: Self)
        ensures
            r@ == fresh_test(name.spec_bytes()),
    {
        UnitTest { name: name.to_owned(), state: TestState::NotRun, num_times_executed: 0 }
    }
}

impl Clone for UnitTest {
    fn clone(&self) -> (r: Self)
        ensures
            r@ == self@,
    {
        UnitTest {
            name: self.name.clone(),
            state: self.state,
            num_times_executed: self.num_times_executed,
        }
    }
}

/// The name of a crate, in a form that the state can keep.
#[derive(Debug)]
pub struct CrateName {
    /// The name with the UUID removed, for example
    /// "/home/phil/repos/rtest/target/debug/deps/example_lib_tests".
    pub name: String,
    /// The full name of the crate, including the UUID, as extracted from a 'Running' line.
    pub full_name: String,
    /// The UUID part of the `full_name`.
    pub uuid: String,
    /// The base part of the `name`, for example "example_lib_tests"
    /// from "/home/phil/repos/rtest/target/debug/deps/example_lib_tests".
    pub basename: String,
}

impl View for CrateName {
    type V = CrateNameText;

    open spec fn view(&self) -> CrateNameText {
        CrateNameText {
            full_name: string_bytes(&self.full_name),
            uuid: string_bytes(&self.uuid),
            name: string_bytes(&self.name),
            basename: string_bytes(&self.basename),
        }
    }
}

impl CrateName {
    /// Convert to an owned form.
    pub fn new(name: &crate::crate_name::CrateName<'_>) -> (r: Self)
        ensures
            r@ == name@,
    {
        CrateName {
            full_name: name.full_name.to_owned(),
            basename: name.basename.to_owned(),
            uuid: name.uuid.to_owned(),
            name: name.name.to_owned(),
        }
    }
}

/// The tests of one crate.
#[derive(Debug)]
pub struct CrateTests {
    pub crate_name: CrateName,
    /// The unit tests, each name once.
    pub unit_tests: Vec<UnitTest>,
    /// The documentation tests, each name once.
    pub doc_tests: Vec<UnitTest>,
}

/// What a `CrateTests` holds.
pub struct CrateTestsText {
    pub crate_name: CrateNameText,
    pub unit_tests: Seq<UnitTestText>,
    pub doc_tests: Seq<UnitTestText>,
}

/// What a sequence of tests holds.
pub open spec fn tests_text(v: Seq<UnitTest>) -> Seq<UnitTestText> {
    v.map_values(|t: UnitTest| t@)
}

impl View for CrateTests {
    type V = CrateTestsText;

    open spec fn view(&self) -> CrateTestsText {
        CrateTestsText {
            crate_name: self.crate_name@,
            unit_tests: tests_text(self.unit_tests@),
            doc_tests: tests_text(self.doc_tests@),
        }
    }
}

/// What a sequence of crates holds.
pub open spec fn crates_text(v: Seq<CrateTests>) -> Seq<CrateTestsText> {
    v.map_values(|c: CrateTests| c@)
}

impl CrateTests {
    /// The crate of the name `name`, of which no test is known.
    pub fn new(name: &crate::crate_name::CrateName<'_>) -> (r: Self)
        ensures
            r@ == (CrateTestsText {
                crate_name: name@,
                unit_tests: Seq::empty(),
                doc_tests: Seq::empty(),
            }),
    {
        let r = CrateTests {
            crate_name: CrateName::new(name),
            unit_tests: Vec::new(),
            doc_tests: Vec::new(),
        };
        proof {
            assert(r@.unit_tests =~= Seq::<UnitTestText>::empty());
            assert(r@.doc_tests =~= Seq::<UnitTestText>::empty());
        }
        r
    }
}

/// The first position from `from` on of a test of the name `name`.
pub open spec fn position_of_test(tests: Seq<UnitTestText>, name: Seq<u8>, from: int) -> Option<
    int,
>
    decreases tests.len() - from,
{
    if from < 0 || from >= tests.len() {
        None
    } else if tests[from].name == name {
        Some(from)
    } else {
        position_of_test(tests, name, from + 1)
    }
}

/// What is known of the test `name` after a listing has named it: what was
/// known of it before, and nothing where it was not known.
pub open spec fn carried_over(old: Seq<UnitTestText>, name: Seq<u8>) -> UnitTestText {
    match position_of_test(old, name, 0) {
        Some(at) => old[at],
        None => fresh_test(name),
    }
}

/// The name at position `i` stands at an earlier position too.
pub open spec fn named_before(names: Seq<Seq<u8>>, i: int) -> bool {
    exists|j: int| 0 <= j < i && #[trigger] names[j] == names[i]
}

/// The tests that the names from position `i` on bring, `old` being the
/// tests that were known.
pub open spec fn rebuilt_from(old: Seq<UnitTestText>, names: Seq<Seq<u8>>, i: int) -> Seq<
    UnitTestText,
>
    decreases names.len() - i,
{
    if i < 0 || i >= names.len() {
        Seq::empty()
    } else if named_before(names, i) {
        rebuilt_from(old, names, i + 1)
    } else {
        seq![carried_over(old, names[i])] + rebuilt_from(old, names, i + 1)
    }
}

/// The tests that are known after a listing has named `names`, `old` being
/// the tests that were known before: one for each name, in the order in
/// which the listing first names them.
pub open spec fn rebuilt(old: Seq<UnitTestText>, names: Seq<Seq<u8>>) -> Seq<UnitTestText> {
    rebuilt_from(old, names, 0)
}

/// The names of the documentation tests `doc_tests`.
pub open spec fn doc_test_names(doc_tests: Seq<DocTestText>) -> Seq<Seq<u8>> {
    doc_tests.map_values(|d: DocTestText| d.name)
}

/// `a` comes before `b` in the order of the dictionary, byte by byte, from
/// position `i` on.
pub open spec fn comes_before_from(a: Seq<u8>, b: Seq<u8>, i: int) -> bool
    decreases a.len() - i,
{
    if i < 0 || i >= b.len() {
        false
    } else if i >= a.len() {
        true
    } else if a[i] != b[i] {
        a[i] < b[i]
    } else {
        comes_before_from(a, b, i + 1)
    }
}

/// `a` comes before `b` in the order of the dictionary, byte by byte.
pub open spec fn comes_before(a: Seq<u8>, b: Seq<u8>) -> bool {
    comes_before_from(a, b, 0)
}

/// No crate comes before a crate that stands in front of it.
pub open spec fn in_order(crates: Seq<CrateTestsText>) -> bool {
    forall|i: int, j: int|
        0 <= i < j < crates.len() ==> !comes_before(
            #[trigger] crates[j].crate_name.name,
            #[trigger] crates[i].crate_name.name,
        )
}

/// The first position from `from` on of a crate of the full name `full_name`.
pub open spec fn position_of_crate(
    crates: Seq<CrateTestsText>,
    full_name: Seq<u8>,
    from: int,
) -> Option<int>
    decreases crates.len() - from,
{
    if from < 0 || from >= crates.len() {
        None
    } else if crates[from].crate_name.full_name == full_name {
        Some(from)
    } else {
        position_of_crate(crates, full_name, from + 1)
    }
}

/// The first position from `from` on of a crate before which `name` comes,
/// and the number of crates where there is none: the place of a new crate
/// of this name.
pub open spec fn insertion_point(crates: Seq<CrateTestsText>, name: Seq<u8>, from: int) -> int
    decreases crates.len() - from,
{
    if from < 0 || from >= crates.len() {
        crates.len() as int
    } else if comes_before(name, crates[from].crate_name.name) {
        from
    } else {
        insertion_point(crates, name, from + 1)
    }
}

/// The crates that are known after a listing has brought the inventory
/// `listed` of one crate.
///
/// A crate of this full name keeps its place and its name. A new crate
/// takes its place in the order of the names, behind the crates of its own
/// name. Its tests are those that the inventory names.
pub open spec fn updated_for_crate(
    crates: Seq<CrateTestsText>,
    listed: TestsText,
) -> Seq<CrateTestsText> {
    match position_of_crate(crates, listed.crate_name.full_name, 0) {
        Some(at) => crates.update(
            at,
            CrateTestsText {
                crate_name: crates[at].crate_name,
                unit_tests: rebuilt(crates[at].unit_tests, listed.tests),
                doc_tests: rebuilt(crates[at].doc_tests, doc_test_names(listed.doc_tests)),
            },
        ),
        None => crates.insert(
            insertion_point(crates, listed.crate_name.name, 0),
            CrateTestsText {
                crate_name: listed.crate_name,
                unit_tests: rebuilt(Seq::empty(), listed.tests),
                doc_tests: rebuilt(Seq::empty(), doc_test_names(listed.doc_tests)),
            },
        ),
    }
}

/// The crates that are known after a listing has brought the inventories
/// `listing` from position `i` on, one after the other.
pub open spec fn updated_from(
    crates: Seq<CrateTestsText>,
    listing: Seq<TestsText>,
    i: int,
) -> Seq<CrateTestsText>
    decreases listing.len() - i,
{
    if i < 0 || i >= listing.len() {
        crates
    } else {
        updated_from(updated_for_crate(crates, listing[i]), listing, i + 1)
    }
}

/// The crates that are known after the listing `listing`.
pub open spec fn updated(crates: Seq<CrateTestsText>, listing: Seq<TestsText>) -> Seq<
    CrateTestsText,
> {
    updated_from(crates, listing, 0)
}

/// Nothing comes before itself.
pub proof fn lemma_comes_before_irreflexive(a: Seq<u8>, i: int)
    ensures
        !comes_before_from(a, a, i),
    decreases a.len() - i,
{
    if 0 <= i < a.len() {
        lemma_comes_before_irreflexive(a, i + 1);
    }
}

/// What comes before something that comes before a third comes before the third.
pub proof fn lemma_comes_before_transitive(a: Seq<u8>, b: Seq<u8>, c: Seq<u8>, i: int)
    requires
        comes_before_from(a, b, i),
        comes_before_from(b, c, i),
    ensures
        comes_before_from(a, c, i),
    decreases a.len() - i,
{
    if i < a.len() && a[i] == b[i] && b[i] == c[i] {
        lemma_comes_before_transitive(a, b, c, i + 1);
    }
}

/// Of two different texts one comes before the other.
pub proof fn lemma_comes_before_total(a: Seq<u8>, b: Seq<u8>, i: int)
    requires
        0 <= i,
        i <= a.len(),
        i <= b.len(),
        a.subrange(0, i) == b.subrange(0, i),
        !comes_before_from(a, b, i),
        !comes_before_from(b, a, i),
    ensures
        a == b,
    decreases a.len() - i,
{
    if i < a.len() && i < b.len() {
        assert(a.subrange(0, i + 1) =~= a.subrange(0, i).push(a[i]));
        assert(b.subrange(0, i + 1) =~= b.subrange(0, i).push(b[i]));
        lemma_comes_before_total(a, b, i + 1);
    } else {
        assert(a =~= a.subrange(0, i));
        assert(b =~= b.subrange(0, i));
    }
}

/// Where a new crate goes, the crates in front of it do not come behind
/// it, and it comes before the crate that it is put in front of.
pub proof fn lemma_insertion_point(crates: Seq<CrateTestsText>, name: Seq<u8>, from: int)
    requires
        0 <= from <= crates.len(),
    ensures
        from <= insertion_point(crates, name, from) <= crates.len(),
        forall|k: int|
            from <= k < insertion_point(crates, name, from) ==> !comes_before(
                name,
                (#[trigger] crates[k]).crate_name.name,
            ),
        insertion_point(crates, name, from) < crates.len() ==> comes_before(
            name,
            crates[insertion_point(crates, name, from)].crate_name.name,
        ),
    decreases crates.len() - from,
{
    if from < crates.len() && !comes_before(name, crates[from].crate_name.name) {
        lemma_insertion_point(crates, name, from + 1);
    }
}

/// What `position_of_crate` gives is the first crate of the full name, and
/// it gives none only where there is none.
pub proof fn lemma_position_of_crate(crates: Seq<CrateTestsText>, full_name: Seq<u8>, from: int)
    requires
        0 <= from,
    ensures
        match position_of_crate(crates, full_name, from) {
            Some(at) => from <= at < crates.len() && crates[at].crate_name.full_name == full_name,
            None => forall|k: int|
                from <= k < crates.len() ==> (#[trigger] crates[k]).crate_name.full_name
                    != full_name,
        },
    decreases crates.len() - from,
{
    if from < crates.len() && crates[from].crate_name.full_name != full_name {
        lemma_position_of_crate(crates, full_name, from + 1);
    }
}

/// The crates stay in the order of their names when a listing brings the
/// inventory of a crate.
pub proof fn lemma_update_keeps_order(crates: Seq<CrateTestsText>, listed: TestsText)
    requires
        in_order(crates),
    ensures
        in_order(updated_for_crate(crates, listed)),
{
    let after = updated_for_crate(crates, listed);
    lemma_position_of_crate(crates, listed.crate_name.full_name, 0);
    match position_of_crate(crates, listed.crate_name.full_name, 0) {
        Some(at) => {
            assert forall|i: int, j: int| 0 <= i < j < after.len() implies !comes_before(
                #[trigger] after[j].crate_name.name,
                #[trigger] after[i].crate_name.name,
            ) by {
                assert(after[i].crate_name == crates[i].crate_name);
                assert(after[j].crate_name == crates[j].crate_name);
            }
        },
        None => {
            let name = listed.crate_name.name;
            let p = insertion_point(crates, name, 0);
            lemma_insertion_point(crates, name, 0);
            assert forall|i: int, j: int| 0 <= i < j < after.len() implies !comes_before(
                #[trigger] after[j].crate_name.name,
                #[trigger] after[i].crate_name.name,
            ) by {
                if j == p {
                    assert(after[i] == crates[i]);
                } else if i == p {
                    let behind = crates[j - 1].crate_name.name;
                    assert(after[j] == crates[j - 1]);
                    if comes_before(behind, name) {
                        lemma_comes_before_transitive(behind, name, crates[p].crate_name.name, 0);
                        if j - 1 == p {
                            lemma_comes_before_irreflexive(behind, 0);
                        }
                    }
                } else {
                    let i0 = if i < p {
                        i
                    } else {
                        i - 1
                    };
                    let j0 = if j < p {
                        j
                    } else {
                        j - 1
                    };
                    assert(after[i] == crates[i0]);
                    assert(after[j] == crates[j0]);
                }
            }
        },
    }
}

/// The crates stay in the order of their names through a listing.
pub proof fn lemma_updated_keeps_order(crates: Seq<CrateTestsText>, listing: Seq<TestsText>, i: int)
    requires
        in_order(crates),
    ensures
        in_order(updated_from(crates, listing, i)),
    decreases listing.len() - i,
{
    if 0 <= i < listing.len() {
        lemma_update_keeps_order(crates, listing[i]);
        lemma_updated_keeps_order(updated_for_crate(crates, listing[i]), listing, i + 1);
    }
}

/// What `position_of_test` gives is the first test of the name, and it
/// gives none only where there is none.
pub proof fn lemma_position_of_test(tests: Seq<UnitTestText>, name: Seq<u8>, from: int)
    requires
        0 <= from,
    ensures
        match position_of_test(tests, name, from) {
            Some(at) => from <= at < tests.len() && tests[at].name == name,
            None => forall|k: int| from <= k < tests.len() ==> (#[trigger] tests[k]).name != name,
        },
    decreases tests.len() - from,
{
    if from < tests.len() && tests[from].name != name {
        lemma_position_of_test(tests, name, from + 1);
    }
}

/// The tests that a listing brings: each of them is what was known of a
/// name that the listing has, and each name of the listing from `i` on that
/// no earlier position holds has its test among them.
pub proof fn lemma_rebuilt_from(old: Seq<UnitTestText>, names: Seq<Seq<u8>>, i: int)
    requires
        0 <= i,
    ensures
        forall|k: int|
            0 <= k < rebuilt_from(old, names, i).len() ==> exists|j: int|
                i <= j < names.len() && !named_before(names, j) && (#[trigger] rebuilt_from(
                    old,
                    names,
                    i,
                )[k]) == carried_over(old, #[trigger] names[j]),
        forall|j: int|
            i <= j < names.len() && !named_before(names, j) ==> rebuilt_from(
                old,
                names,
                i,
            ).contains(carried_over(old, #[trigger] names[j])),
    decreases names.len() - i,
{
    if i < names.len() {
        lemma_rebuilt_from(old, names, i + 1);
        let rest = rebuilt_from(old, names, i + 1);
        let all = rebuilt_from(old, names, i);
        if named_before(names, i) {
        } else {
            let first = carried_over(old, names[i]);
            assert(all =~= seq![first] + rest);
            assert forall|k: int| 0 <= k < all.len() implies exists|j: int|
                i <= j < names.len() && !named_before(names, j) && (#[trigger] all[k])
                    == carried_over(old, #[trigger] names[j]) by {
                if k == 0 {
                    assert(all[0] == carried_over(old, names[i]));
                } else {
                    assert(all[k] == rest[k - 1]);
                }
            }
            assert forall|j: int|
                i <= j < names.len() && !named_before(names, j) implies all.contains(
                carried_over(old, #[trigger] names[j]),
            ) by {
                if j == i {
                    assert(all[0] == first);
                } else {
                    let t = carried_over(old, names[j]);
                    let k = choose|k: int| 0 <= k < rest.len() && rest[k] == t;
                    assert(all[k + 1] == t);
                }
            }
        }
    }
}

/// What is known of a test carries its name.
pub proof fn lemma_carried_over_name(old: Seq<UnitTestText>, name: Seq<u8>)
    ensures
        carried_over(old, name).name == name,
{
    lemma_position_of_test(old, name, 0);
}

/// After a listing a test is known if and only if the listing names it.
/// What was known of a test that the listing names again is still known of
/// it, and nothing is known of a test that it names for the first time.
pub proof fn lemma_rebuilt(old: Seq<UnitTestText>, names: Seq<Seq<u8>>, name: Seq<u8>)
    ensures
        names.contains(name) <==> rebuilt(old, names).contains(carried_over(old, name)),
        forall|k: int|
            0 <= k < rebuilt(old, names).len() ==> names.contains(
                (#[trigger] rebuilt(old, names)[k]).name,
            ) && rebuilt(old, names)[k] == carried_over(old, rebuilt(old, names)[k].name),
{
    lemma_rebuilt_from(old, names, 0);
    let all = rebuilt(old, names);
    assert forall|k: int| 0 <= k < all.len() implies names.contains((#[trigger] all[k]).name)
        && all[k] == carried_over(old, all[k].name) by {
        let j = choose|j: int|
            0 <= j < names.len() && !named_before(names, j) && all[k] == carried_over(
                old,
                names[j],
            );
        lemma_carried_over_name(old, names[j]);
    }
    if names.contains(name) {
        let j = choose|j: int| 0 <= j < names.len() && names[j] == name;
        lemma_first_occurrence(names, j);
        let first = choose|f: int| 0 <= f <= j && names[f] == names[j] && !named_before(names, f);
        assert(all.contains(carried_over(old, names[first])));
    }
    if all.contains(carried_over(old, name)) {
        let k = choose|k: int| 0 <= k < all.len() && all[k] == carried_over(old, name);
        lemma_carried_over_name(old, name);
        assert(names.contains(all[k].name));
    }
}

/// A name that a listing holds has a first position in it.
pub proof fn lemma_first_occurrence(names: Seq<Seq<u8>>, j: int)
    requires
        0 <= j < names.len(),
    ensures
        exists|f: int| 0 <= f <= j && names[f] == names[j] && !named_before(names, f),
    decreases j,
{
    if named_before(names, j) {
        let e = choose|e: int| 0 <= e < j && names[e] == names[j];
        lemma_first_occurrence(names, e);
        let f = choose|f: int| 0 <= f <= e && names[f] == names[e] && !named_before(names, f);
        assert(0 <= f <= j && names[f] == names[j] && !named_before(names, f));
    } else {
        assert(0 <= j <= j && names[j] == names[j] && !named_before(names, j));
    }
}

/// After a listing no two tests have the same name.
pub proof fn lemma_rebuilt_names_differ(old: Seq<UnitTestText>, names: Seq<Seq<u8>>, i: int)
    requires
        0 <= i,
    ensures
        forall|k: int, l: int|
            0 <= k < l < rebuilt_from(old, names, i).len() ==> (#[trigger] rebuilt_from(
                old,
                names,
                i,
            )[k]).name != (#[trigger] rebuilt_from(old, names, i)[l]).name,
    decreases names.len() - i,
{
    if i < names.len() {
        lemma_rebuilt_names_differ(old, names, i + 1);
        let rest = rebuilt_from(old, names, i + 1);
        let all = rebuilt_from(old, names, i);
        if !named_before(names, i) {
            let first = carried_over(old, names[i]);
            assert(all =~= seq![first] + rest);
            lemma_rebuilt_from(old, names, i + 1);
            lemma_carried_over_name(old, names[i]);
            assert forall|k: int, l: int| 0 <= k < l < all.len() implies (#[trigger] all[k]).name
                != (#[trigger] all[l]).name by {
                assert(all[l] == rest[l - 1]);
                if k == 0 {
                    let j = choose|j: int|
                        i + 1 <= j < names.len() && !named_before(names, j) && rest[l - 1]
                            == carried_over(old, names[j]);
                    lemma_carried_over_name(old, names[j]);
                    if names[j] == names[i] {
                        assert(named_before(names, j));
                    }
                } else {
                    assert(all[k] == rest[k - 1]);
                }
            }
        }
    }
}

/// Whether `a` comes before `b` in the order of the dictionary.
fn text_comes_before(a: &str, b: &str) -> (r: bool)
    ensures
        r == comes_before(a.spec_bytes(), b.spec_bytes()),
{
    let x = a.as_bytes();
    let y = b.as_bytes();
    let mut i: usize = 0;
    loop
        invariant
            x@ == a.spec_bytes(),
            y@ == b.spec_bytes(),
            i <= x@.len(),
            i <= y@.len(),
            comes_before_from(x@, y@, i as int) == comes_before(x@, y@),
        decreases x@.len() - i,
    {
        if i >= y.len() {
            return false;
        }
        if i >= x.len() {
            return true;
        }
        if x[i] != y[i] {
            return x[i] < y[i];
        }
        i += 1;
    }
}

/// The position of the first test in `tests` of the name `name`.
fn find_test(tests: &Vec<UnitTest>, name: &str) -> (r: Option<usize>)
    ensures
        match r {
            Some(at) => position_of_test(tests_text(tests@), name.spec_bytes(), 0) == Some(
                at as int,
            ) && at < tests@.len(),
            None => position_of_test(tests_text(tests@), name.spec_bytes(), 0) is None,
        },
{
    let mut j: usize = 0;
    while j < tests.len()
        invariant
            j <= tests@.len(),
            position_of_test(tests_text(tests@), name.spec_bytes(), j as int) == position_of_test(
                tests_text(tests@),
                name.spec_bytes(),
                0,
            ),
        decreases tests@.len() - j,
    {
        if same_text(tests[j].name.as_str(), name) {
            return Some(j);
        }
        j += 1;
    }
    None
}

/// Whether the name at position `i` stands at an earlier position too.
fn is_named_before(names: &Vec<&str>, i: usize) -> (r: bool)
    requires
        i < names@.len(),
    ensures
        r == named_before(texts(names@), i as int),
{
    let mut j: usize = 0;
    while j < i
        invariant
            j <= i < names@.len(),
            forall|k: int| 0 <= k < j ==> texts(names@)[k] != texts(names@)[i as int],
        decreases i - j,
    {
        if same_text(names[j], names[i]) {
            proof {
                assert(texts(names@)[j as int] == texts(names@)[i as int]);
            }
            return true;
        }
        j += 1;
    }
    false
}

/// The tests that are known after a listing has named `names`.
fn rebuild(old: &Vec<UnitTest>, names: &Vec<&str>) -> (r: Vec<UnitTest>)
    ensures
        tests_text(r@) == rebuilt(tests_text(old@), texts(names@)),
{
    let mut r: Vec<UnitTest> = Vec::new();
    let n = names.len();
    let mut i: usize = 0;
    proof {
        assert(tests_text(r@) + rebuilt_from(tests_text(old@), texts(names@), 0) =~= rebuilt(
            tests_text(old@),
            texts(names@),
        ));
    }
    while i < n
        invariant
            n == names@.len(),
            i <= n,
            tests_text(r@) + rebuilt_from(tests_text(old@), texts(names@), i as int) == rebuilt(
                tests_text(old@),
                texts(names@),
            ),
        decreases n - i,
    {
        if !is_named_before(names, i) {
            let test = match find_test(old, names[i]) {
                Some(at) => old[at].clone(),
                None => UnitTest::new(names[i]),
            };
            proof {
                let rest = rebuilt_from(tests_text(old@), texts(names@), i + 1);
                assert(test@ == carried_over(tests_text(old@), texts(names@)[i as int]));
                assert(tests_text(r@.push(test)) =~= tests_text(r@).push(test@));
                assert(tests_text(r@).push(test@) + rest =~= tests_text(r@) + (seq![test@] + rest));
            }
            r.push(test);
        }
        i += 1;
    }
    proof {
        assert(tests_text(r@) + Seq::<UnitTestText>::empty() =~= tests_text(r@));
    }
    r
}

/// The names of the documentation tests `doc_tests`.
fn names_of<'a>(doc_tests: &Vec<DocTest<'a>>) -> (r: Vec<&'a str>)
    ensures
        texts(r@) == doc_test_names(doc_tests@.map_values(|d: DocTest<'a>| d@)),
{
    let mut r: Vec<&'a str> = Vec::new();
    let mut i: usize = 0;
    while i < doc_tests.len()
        invariant
            i <= doc_tests@.len(),
            texts(r@) == doc_test_names(doc_tests@.map_values(|d: DocTest<'a>| d@)).subrange(
                0,
                i as int,
            ),
        decreases doc_tests@.len() - i,
    {
        proof {
            let all = doc_test_names(doc_tests@.map_values(|d: DocTest<'a>| d@));
            let name = doc_tests[i as int].name;
            assert(all[i as int] == name.spec_bytes());
            assert(texts(r@.push(name)) =~= texts(r@).push(name.spec_bytes()));
            assert(all.subrange(0, i as int).push(all[i as int]) =~= all.subrange(0, i + 1));
        }
        r.push(doc_tests[i].name);
        i += 1;
    }
    proof {
        let all = doc_test_names(doc_tests@.map_values(|d: DocTest<'a>| d@));
        assert(all.subrange(0, all.len() as int) =~= all);
    }
    r
}

/// The position of the crate of the full name `full_name`.
fn find_crate(crates: &Vec<CrateTests>, full_name: &str) -> (r: Option<usize>)
    ensures
        match r {
            Some(at) => position_of_crate(crates_text(crates@), full_name.spec_bytes(), 0) == Some(
                at as int,
            ) && at < crates@.len(),
            None => position_of_crate(crates_text(crates@), full_name.spec_bytes(), 0) is None,
        },
{
    let mut j: usize = 0;
    while j < crates.len()
        invariant
            j <= crates@.len(),
            position_of_crate(crates_text(crates@), full_name.spec_bytes(), j as int)
                == position_of_crate(crates_text(crates@), full_name.spec_bytes(), 0),
        decreases crates@.len() - j,
    {
        if same_text(crates[j].crate_name.full_name.as_str(), full_name) {
            return Some(j);
        }
        j += 1;
    }
    None
}

/// The place of a new crate of the name `name`.
fn find_place(crates: &Vec<CrateTests>, name: &str) -> (r: usize)
    ensures
        r == insertion_point(crates_text(crates@), name.spec_bytes(), 0),
        r <= crates@.len(),
{
    let mut j: usize = 0;
    while j < crates.len()
        invariant
            j <= crates@.len(),
            insertion_point(crates_text(crates@), name.spec_bytes(), j as int) == insertion_point(
                crates_text(crates@),
                name.spec_bytes(),
                0,
            ),
        decreases crates@.len() - j,
    {
        if text_comes_before(name, crates[j].crate_name.name.as_str()) {
            return j;
        }
        j += 1;
    }
    j
}

/// Brings `crates` up to date with the inventory `test` of one crate.
fn update_crates(crates: &mut Vec<CrateTests>, test: &Tests<'_>)
    ensures
        crates_text(final(crates)@) == updated_for_crate(crates_text(old(crates)@), test@),
{
    let doc_names = names_of(&test.doc_tests);
    match find_crate(crates, test.crate_name.full_name) {
        Some(at) => {
            let ghost before = crates_text(crates@);
            let mut known = crates.remove(at);
            let ghost others = crates_text(crates@);
            known.unit_tests = rebuild(&known.unit_tests, &test.tests);
            known.doc_tests = rebuild(&known.doc_tests, &doc_names);
            proof {
                assert(others.insert(at as int, known@) =~= before.update(at as int, known@));
                assert(crates_text(crates@.insert(at as int, known)) =~= others.insert(
                    at as int,
                    known@,
                ));
            }
            crates.insert(at, known);
        },
        None => {
            let mut known = CrateTests::new(&test.crate_name);
            let nothing: Vec<UnitTest> = Vec::new();
            proof {
                assert(tests_text(nothing@) =~= Seq::<UnitTestText>::empty());
            }
            known.unit_tests = rebuild(&nothing, &test.tests);
            known.doc_tests = rebuild(&nothing, &doc_names);
            let at = find_place(crates, test.crate_name.name);
            proof {
                assert(crates_text(crates@.insert(at as int, known)) =~= crates_text(
                    crates@,
                ).insert(at as int, known@));
            }
            crates.insert(at, known);
        },
    }
}

/// The tests that are known, crate by crate.
#[derive(Debug)]
pub struct InnerState {
    tests: Vec<CrateTests>,
}

impl View for InnerState {
    type V = Seq<CrateTestsText>;

    closed spec fn view(&self) -> Seq<CrateTestsText> {
        crates_text(self.tests@)
    }
}

impl InnerState {
    #[verifier::type_invariant]
    spec fn crates_in_order(&self) -> bool {
        in_order(crates_text(self.tests@))
    }

    /// A state in which no crate is known.
    pub fn new() -> (r: Self)
        ensures
            r@ == Seq::<CrateTestsText>::empty(),
    {
        let r = InnerState { tests: Vec::new() };
        proof {
            assert(crates_text(r.tests@) =~= Seq::<CrateTestsText>::empty());
        }
        r
    }

    /// The crates that are known, in the order of their names.
    pub fn crates(&self) -> (r: &Vec<CrateTests>)
        ensures
            crates_text(r@) == self@,
            in_order(self@),
    {
        proof {
            use_type_invariant(self);
        }
        &self.tests
    }

    /// Brings the state up to date with the listing `test_list`, crate by crate.
    pub fn update_test_list(&mut self, test_list: &[Tests<'_>])
        ensures
            final(self)@ == updated(old(self)@, inventories(test_list@)),
    {
        let n = test_list.len();
        let mut i: usize = 0;
        while i < n
            invariant
                n == test_list@.len(),
                i <= n,
                updated_from(self@, inventories(test_list@), i as int) == updated(
                    old(self)@,
                    inventories(test_list@),
                ),
            decreases n - i,
        {
            self.update_test_list_for_crate(&test_list[i]);
            i += 1;
        }
    }

    /// Brings the state up to date with the inventory `test` of one crate.
    pub fn update_test_list_for_crate(&mut self, test: &Tests<'_>)
        ensures
            final(self)@ == updated_for_crate(old(self)@, test@),
    {
        proof {
            use_type_invariant(&*self);
            lemma_update_keeps_order(self@, test@);
        }
        let mut crates: Vec<CrateTests> = Vec::new();
        proof {
            assert(crates_text(crates@) =~= Seq::<CrateTestsText>::empty());
        }
        core::mem::swap(&mut self.tests, &mut crates);
        update_crates(&mut crates, test);
        core::mem::swap(&mut self.tests, &mut crates);
    }
}

/// Represents the program state (excluding the engine).
/// Basically this is the list of known tests and their state.
/// Whoever shares it between threads keeps it behind a lock.
#[derive(Debug)]
pub struct State {
    pub inner: InnerState,
}

impl State {
    /// A state in which no crate is known.
    pub fn new() -> (r: Self)
        ensures
            r.inner@ == Seq::<CrateTestsText>::empty(),
    {
        State { inner: InnerState::new() }
    }

    /// Brings the state up to date with the listing `tests`.
    pub fn update_test_list(&mut self, tests: &[Tests<'_>])
        ensures
            final(self).inner@ == updated(old(self).inner@, inventories(tests@)),
    {
        self.inner.update_test_list(tests);
    }
}

} // verus!

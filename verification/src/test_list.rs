//! The parser of a test listing.
//!
//! A listing is the text that the test harness prints when it is asked to
//! list its tests. It names one crate after the other; below each name stand
//! the crate's tests, one on a line, and a summary line that counts them.
//! The parser reads the listing line by line and stops at the first line
//! that does not fit.
use crate::crate_name::{bare_name, crate_name_of, CrateName, CrateNameText};
use crate::doc_test::{doc_test_of, test_suffix, DocTest, DocTestText};
use crate::parse_context::ParseContext;
use crate::parse_error::{
    failure_at, miscount_message, ParseError, ParseErrorKind, ParseFailure,
};
use crate::text::{
    ends_with, find, find_first, lemma_ascii_text, lemma_boundary_after_scalar, lemma_empty_text,
    lemma_find_from,
    lemma_str_bytes_valid, occurs_at, same_text, slice, split_lines, starts_with, strip_prefixes,
    strip_suffixes, texts, trim, trim_end_matches, trim_start_matches, trimmed,
};
use crate::utils::{leading_usize, parse_leading_usize};
use vstd::prelude::*;
use vstd::string::*;

verus! {

/// Represents the set of unit tests (normal tests or benchmarks)
/// and documentation tests in a single crate.
#[derive(Debug)]
pub struct Tests<'a> {
    pub crate_name: CrateName<'a>,
    pub tests: Vec<&'a str>,
    pub doc_tests: Vec<DocTest<'a>>,
}

/// What a `Tests` holds.
pub struct TestsText {
    pub crate_name: CrateNameText,
    pub tests: Seq<Seq<u8>>,
    pub doc_tests: Seq<DocTestText>,
}

impl<'a> View for Tests<'a> {
    type V = TestsText;

    open spec fn view(&self) -> TestsText {
        TestsText {
            crate_name: self.crate_name@,
            tests: texts(self.tests@),
            doc_tests: self.doc_tests@.map_values(|d: DocTest<'a>| d@),
        }
    }
}

impl<'a> Clone for Tests<'a> {
    fn clone(&self) -> (r: Self)
        ensures
            r@ == self@,
    {
        let mut tests: Vec<&'a str> = Vec::new();
        let mut i: usize = 0;
        while i < self.tests.len()
            invariant
                i <= self.tests@.len(),
                tests@ == self.tests@.subrange(0, i as int),
            decreases self.tests@.len() - i,
        {
            proof {
                assert(self.tests@.subrange(0, i as int).push(self.tests@[i as int])
                    =~= self.tests@.subrange(0, i + 1));
            }
            tests.push(self.tests[i]);
            i += 1;
        }
        let mut doc_tests: Vec<DocTest<'a>> = Vec::new();
        let mut j: usize = 0;
        while j < self.doc_tests.len()
            invariant
                j <= self.doc_tests@.len(),
                doc_tests@ == self.doc_tests@.subrange(0, j as int),
            decreases self.doc_tests@.len() - j,
        {
            let doc_test = self.doc_tests[j].clone();
            proof {
                assert(self.doc_tests@.subrange(0, j as int).push(doc_test)
                    =~= self.doc_tests@.subrange(0, j + 1));
            }
            doc_tests.push(doc_test);
            j += 1;
        }
        proof {
            assert(self.tests@.subrange(0, self.tests@.len() as int) =~= self.tests@);
            assert(self.doc_tests@.subrange(0, self.doc_tests@.len() as int)
                =~= self.doc_tests@);
        }
        Tests { crate_name: self.crate_name.clone(), tests, doc_tests }
    }
}

/// What a sequence of `Tests` holds.
pub open spec fn inventories<'a>(v: Seq<Tests<'a>>) -> Seq<TestsText> {
    v.map_values(|t: Tests<'a>| t@)
}

/// The text that begins the line which names a crate before its unit tests.
pub open spec fn running_prefix() -> Seq<u8> {
    "Running ".spec_bytes()
}

/// The text that begins the line which names a crate before its documentation tests.
pub open spec fn doc_tests_prefix() -> Seq<u8> {
    "Doc-tests ".spec_bytes()
}

/// The text with which a listing ends the line of a benchmark.
pub open spec fn bench_suffix() -> Seq<u8> {
    ": bench".spec_bytes()
}

/// The text between the two counts of a summary line.
pub open spec fn count_separator() -> Seq<u8> {
    ", ".spec_bytes()
}

/// `s` ends with `p`.
pub open spec fn has_suffix(s: Seq<u8>, p: Seq<u8>) -> bool {
    p.len() <= s.len() && occurs_at(s, p, s.len() - p.len())
}

/// The trimmed line begins a section: it names a crate.
pub open spec fn is_section_start(line: Seq<u8>) -> bool {
    occurs_at(line, running_prefix(), 0) || occurs_at(line, doc_tests_prefix(), 0)
}

/// The name that a line gives before `suffix`, where the trimmed line ends
/// with `suffix`. Every copy of `suffix` at the end is taken away.
pub open spec fn name_before(raw: Seq<u8>, suffix: Seq<u8>) -> Option<Seq<u8>> {
    let line = trimmed(raw);
    if has_suffix(line, suffix) {
        Some(strip_suffixes(line, suffix))
    } else {
        None
    }
}

/// The two counts of a summary line, such as "4 tests, 2 benchmarks", and
/// `None` for a line of another form.
///
/// The first ", " parts the line in two. The first part has to end with
/// " tests" or " test", the second with " benchmarks" or " benchmark", and
/// each has to begin with a decimal number.
pub open spec fn summary_counts(line: Seq<u8>) -> Option<(usize, usize)> {
    match find(line, count_separator()) {
        Some(k) => {
            let left = line.subrange(0, k);
            let right = line.subrange(k + count_separator().len(), line.len() as int);
            if (has_suffix(left, " tests".spec_bytes()) || has_suffix(left, " test".spec_bytes()))
                && (has_suffix(right, " benchmarks".spec_bytes()) || has_suffix(
                right,
                " benchmark".spec_bytes(),
            )) {
                match (leading_usize(left), leading_usize(right)) {
                    (Some(tests), Some(benchmarks)) => Some((tests, benchmarks)),
                    _ => None,
                }
            } else {
                None
            }
        },
        None => None,
    }
}

/// The first position from `from` on of a crate whose basename is `wanted`.
pub open spec fn position_of_basename(acc: Seq<TestsText>, wanted: Seq<u8>, from: int) -> Option<
    int,
>
    decreases acc.len() - from,
{
    if from < 0 || from >= acc.len() {
        None
    } else if acc[from].crate_name.basename == wanted {
        Some(from)
    } else {
        position_of_basename(acc, wanted, from + 1)
    }
}

/// The inventory of a crate of which no test is known yet.
pub open spec fn new_inventory(crate_name: CrateNameText) -> TestsText {
    TestsText { crate_name, tests: Seq::empty(), doc_tests: Seq::empty() }
}

/// What a line outside a section is.
pub enum Heading {
    /// It starts no section, and is passed over.
    Nothing,
    /// It starts the unit tests of the crate of this name.
    UnitTests(CrateNameText),
    /// It starts the documentation tests of the crate of this basename.
    DocTests(Seq<u8>),
    /// It starts a section and names a crate badly.
    Malformed(ParseErrorKind),
}

/// What the line `raw` is when it stands outside a section.
///
/// A line that begins, after trimming, with "Running " starts the unit
/// tests of the crate that the rest of it names. One that begins with
/// "Doc-tests " starts the documentation tests of the crate whose basename
/// is the rest of it, trimmed.
#[verifier::opaque]
pub open spec fn heading_of(raw: Seq<u8>) -> Heading {
    let line = trimmed(raw);
    if occurs_at(line, running_prefix(), 0) {
        match crate_name_of(strip_prefixes(line, running_prefix())) {
            Ok(crate_name) => Heading::UnitTests(crate_name),
            Err(kind) => Heading::Malformed(kind),
        }
    } else if occurs_at(line, doc_tests_prefix(), 0) {
        Heading::DocTests(trimmed(strip_prefixes(line, doc_tests_prefix())))
    } else {
        Heading::Nothing
    }
}

/// What a line inside a section does to the inventory that is being read.
pub enum LineStep {
    /// The section goes on, with this inventory.
    Stay(TestsText),
    /// The section ends, and the inventory is as it was.
    End,
    /// The listing is malformed.
    Fail(ParseErrorKind, Seq<char>),
}

/// What a line inside a section does, `found` being the number of tests
/// that the section has brought so far, and `otherwise` what the line does
/// where it is neither empty, nor the start of a section, nor a summary.
///
/// An empty line is passed over. The start of another section is an
/// overrun. A summary line ends the section if its first count is `found`,
/// and is a miscount otherwise.
pub open spec fn section_step(
    raw: Seq<u8>,
    current: TestsText,
    found: nat,
    otherwise: LineStep,
) -> LineStep {
    let line = trimmed(raw);
    if line.len() == 0 {
        LineStep::Stay(current)
    } else if is_section_start(line) {
        LineStep::Fail(ParseErrorKind::SectionOverrun, Seq::empty())
    } else {
        match summary_counts(line) {
            Some(counts) => if found == counts.0 {
                LineStep::End
            } else {
                LineStep::Fail(ParseErrorKind::UnitTestMiscount, miscount_message(found))
            },
            None => otherwise,
        }
    }
}

/// What the line `raw` does among the unit tests of `current`: a line that
/// names a test adds it, and any other line is passed over.
#[verifier::opaque]
pub open spec fn unit_tests_step(raw: Seq<u8>, current: TestsText) -> LineStep {
    section_step(
        raw,
        current,
        current.tests.len(),
        match name_before(trimmed(raw), test_suffix()) {
            Some(name) => LineStep::Stay(TestsText { tests: current.tests.push(name), ..current }),
            None => LineStep::Stay(current),
        },
    )
}

/// What the line `raw` does among the documentation tests of `current`: it
/// has to name a documentation test, which it adds.
#[verifier::opaque]
pub open spec fn doc_tests_step(raw: Seq<u8>, current: TestsText) -> LineStep {
    section_step(
        raw,
        current,
        current.doc_tests.len(),
        match doc_test_of(trimmed(raw)) {
            Some(doc_test) => LineStep::Stay(
                TestsText { doc_tests: current.doc_tests.push(doc_test), ..current },
            ),
            None => LineStep::Fail(ParseErrorKind::MalformedDocTestLine, Seq::empty()),
        },
    )
}

/// Where the documentation tests of the crate with the basename `wanted`
/// go: to the first of `acc` with this basename or, where there is none, to
/// a new inventory behind them. Gives the inventories and the position.
pub open spec fn doc_tests_target(acc: Seq<TestsText>, wanted: Seq<u8>) -> (Seq<TestsText>, int) {
    match position_of_basename(acc, wanted, 0) {
        Some(at) => (acc, at),
        None => (acc.push(new_inventory(bare_name(wanted))), acc.len() as int),
    }
}

/// What the parser is reading.
pub enum Section {
    /// Lines between two sections: all but the start of a section are passed over.
    Outside,
    /// The unit tests of the crate whose inventory this is; it is not yet
    /// among the finished ones.
    UnitTests(TestsText),
    /// The documentation tests of the crate at this position among the
    /// finished ones.
    DocTests(int),
}

/// The failure of kind `kind` on the line at position `i`.
pub open spec fn failure_on(
    kind: ParseErrorKind,
    lines: Seq<Seq<u8>>,
    i: int,
    message: Seq<char>,
) -> ParseFailure {
    ParseFailure { kind, line_number: (i + 1) as nat, line: lines[i], message }
}

/// The inventories that the lines from position `i` on lead to, `acc` being
/// the inventories that are finished and `section` what is being read.
///
/// The unit tests of a crate make a new inventory, which is finished when
/// their section ends. The documentation tests of a crate go to the first
/// finished inventory with the crate's basename or, where there is none, to
/// a new inventory of this name and nothing else. The end of the lines ends
/// a section as a summary line does.
pub open spec fn parse_lines(
    lines: Seq<Seq<u8>>,
    i: int,
    acc: Seq<TestsText>,
    section: Section,
) -> Result<Seq<TestsText>, ParseFailure>
    decreases lines.len() - i,
{
    if i < 0 || i >= lines.len() {
        match section {
            Section::UnitTests(current) => Ok(acc.push(current)),
            _ => Ok(acc),
        }
    } else {
        match section {
            Section::Outside => match heading_of(lines[i]) {
                Heading::Nothing => parse_lines(lines, i + 1, acc, section),
                Heading::UnitTests(crate_name) => parse_lines(
                    lines,
                    i + 1,
                    acc,
                    Section::UnitTests(new_inventory(crate_name)),
                ),
                Heading::DocTests(wanted) => parse_lines(
                    lines,
                    i + 1,
                    doc_tests_target(acc, wanted).0,
                    Section::DocTests(doc_tests_target(acc, wanted).1),
                ),
                Heading::Malformed(kind) => Err(failure_on(kind, lines, i, Seq::empty())),
            },
            Section::UnitTests(current) => match unit_tests_step(lines[i], current) {
                LineStep::Stay(grown) => parse_lines(
                    lines,
                    i + 1,
                    acc,
                    Section::UnitTests(grown),
                ),
                LineStep::End => parse_lines(lines, i + 1, acc.push(current), Section::Outside),
                LineStep::Fail(kind, message) => Err(failure_on(kind, lines, i, message)),
            },
            Section::DocTests(at) => match doc_tests_step(lines[i], acc[at]) {
                LineStep::Stay(grown) => parse_lines(lines, i + 1, acc.update(at, grown), section),
                LineStep::End => parse_lines(lines, i + 1, acc, Section::Outside),
                LineStep::Fail(kind, message) => Err(failure_on(kind, lines, i, message)),
            },
        }
    }
}

/// The inventories that the listing `data` denotes, one for each crate in
/// the order in which the listing first names them, or its first failure.
pub open spec fn listing_of(data: Seq<u8>) -> Result<Seq<TestsText>, ParseFailure> {
    parse_lines(split_lines(data), 0, Seq::empty(), Section::Outside)
}

/// Parses a line of the form "tests::failing_test1: test", as occurs when the
/// unit tests are being listed. Returns the name of the test if the parse
/// succeeds, `None` otherwise.
pub fn parse_unit_test(line: &str) -> (r: Option<&str>)
    ensures
        match r {
            Some(name) => name_before(line.spec_bytes(), test_suffix()) == Some(name.spec_bytes()),
            None => name_before(line.spec_bytes(), test_suffix()) is None,
        },
{
    let line = trim(line);
    proof {
        reveal_strlit(": test");
        lemma_ascii_text(": test");
    }
    if ends_with(line, ": test") {
        Some(trim_end_matches(line, ": test"))
    } else {
        None
    }
}

/// Parses a line of the form "tests::failing_test1: bench", as occurs when the
/// benchmarks are being listed. Returns the name of the benchmark if the parse
/// succeeds, `None` otherwise.
pub fn parse_bench_test(line: &str) -> (r: Option<&str>)
    ensures
        match r {
            Some(name) => name_before(line.spec_bytes(), bench_suffix()) == Some(
                name.spec_bytes(),
            ),
            None => name_before(line.spec_bytes(), bench_suffix()) is None,
        },
{
    let line = trim(line);
    proof {
        reveal_strlit(": bench");
        lemma_ascii_text(": bench");
    }
    if ends_with(line, ": bench") {
        Some(trim_end_matches(line, ": bench"))
    } else {
        None
    }
}

/// Parse a line of the form "4 tests, 2 benchmarks", returning the two counts
/// if the line matches this form, `None` otherwise.
pub fn parse_test_summary_count(line: &str) -> (r: Option<(usize, usize)>)
    ensures
        r == summary_counts(line.spec_bytes()),
{
    proof {
        reveal_strlit(", ");
        lemma_ascii_text(", ");
        lemma_str_bytes_valid(line);
    }
    match find_first(line, ", ") {
        Some(k) => {
            let n = line.as_bytes().len();
            proof {
                let b = line.spec_bytes();
                lemma_find_from(b, count_separator(), 0);
                let w = b.subrange(k as int, k + 2);
                assert(w[0] == count_separator()[0]);
                assert(w[1] == count_separator()[1]);
                lemma_boundary_after_scalar(b, k + 1);
            }
            let left = slice(line, 0, k);
            let right = slice(line, k + 2, n);
            if (ends_with(left, " tests") || ends_with(left, " test")) && (ends_with(
                right,
                " benchmarks",
            ) || ends_with(right, " benchmark")) {
                match parse_leading_usize(left) {
                    Some(tests) => match parse_leading_usize(right) {
                        Some(benchmarks) => Some((tests, benchmarks)),
                        None => None,
                    },
                    None => None,
                }
            } else {
                None
            }
        },
        None => None,
    }
}

/// The position of the first crate in `tests` whose basename is `wanted`.
fn find_by_basename<'a>(tests: &Vec<Tests<'a>>, wanted: &str) -> (r: Option<usize>)
    ensures
        match r {
            Some(at) => position_of_basename(inventories(tests@), wanted.spec_bytes(), 0) == Some(
                at as int,
            ) && at < tests@.len(),
            None => position_of_basename(inventories(tests@), wanted.spec_bytes(), 0) is None,
        },
{
    let mut j: usize = 0;
    while j < tests.len()
        invariant
            j <= tests@.len(),
            position_of_basename(inventories(tests@), wanted.spec_bytes(), j as int)
                == position_of_basename(inventories(tests@), wanted.spec_bytes(), 0),
        decreases tests@.len() - j,
    {
        if same_text(tests[j].crate_name.basename, wanted) {
            return Some(j);
        }
        j += 1;
    }
    None
}

/// Whether the trimmed line starts a section.
fn starts_section(line: &str) -> (r: bool)
    ensures
        r == is_section_start(line.spec_bytes()),
{
    starts_with(line, "Running ") || starts_with(line, "Doc-tests ")
}

/// What a line inside a section is, before the section's own lines are looked at.
enum Common {
    Empty,
    Summary(usize),
    Other,
}

/// Reads what all sections have in common from the trimmed line.
fn common_line(line: &str, ctx: &ParseContext) -> (r: Result<Common, ParseError>)
    ensures
        match r {
            Ok(Common::Empty) => line.spec_bytes().len() == 0,
            Ok(Common::Summary(n)) => line.spec_bytes().len() != 0 && !is_section_start(
                line.spec_bytes(),
            ) && (summary_counts(line.spec_bytes()) matches Some(counts) && counts.0 == n),
            Ok(Common::Other) => line.spec_bytes().len() != 0 && !is_section_start(
                line.spec_bytes(),
            ) && summary_counts(line.spec_bytes()) is None,
            Err(e) => line.spec_bytes().len() != 0 && is_section_start(line.spec_bytes()) && e@
                == failure_at(
                ParseErrorKind::SectionOverrun,
                ctx,
                Seq::empty(),
            ),
        },
{
    if line.as_bytes().len() == 0 {
        Ok(Common::Empty)
    } else if starts_section(line) {
        // The summary line of the section before is missing.
        Err(ParseError::section_overrun(ctx))
    } else {
        match parse_test_summary_count(line) {
            Some(counts) => Ok(Common::Summary(counts.0)),
            None => Ok(Common::Other),
        }
    }
}

/// Reads one line among the unit tests of `crate_tests`. Returns whether the
/// line was the summary that ends them.
fn unit_tests_line<'a>(raw: &'a str, crate_tests: &mut Tests<'a>, ctx: &ParseContext) -> (r:
    Result<bool, ParseError>)
    ensures
        match unit_tests_step(raw.spec_bytes(), old(crate_tests)@) {
            LineStep::Stay(grown) => r == Ok::<bool, ParseError>(false) && final(crate_tests)@
                == grown,
            LineStep::End => r == Ok::<bool, ParseError>(true) && *final(crate_tests) == *old(
                crate_tests,
            ),
            LineStep::Fail(kind, message) => (r matches Err(e) && e@
                == failure_at(kind, ctx, message)),
        },
{
    reveal(unit_tests_step);
    let line = trim(raw);
    match common_line(line, ctx) {
        Err(e) => Err(e),
        Ok(Common::Empty) => Ok(false),
        Ok(Common::Summary(declared)) => {
            // The section has to hold as many tests as its summary declares.
            if crate_tests.tests.len() != declared {
                Err(ParseError::unit_test_miscount(ctx, crate_tests.tests.len()))
            } else {
                Ok(true)
            }
        },
        Ok(Common::Other) => {
            match parse_unit_test(line) {
                Some(test_name) => {
                    proof {
                        assert(texts(crate_tests.tests@.push(test_name)) =~= texts(
                            crate_tests.tests@,
                        ).push(test_name.spec_bytes()));
                    }
                    crate_tests.tests.push(test_name);
                },
                None => {},
            }
            Ok(false)
        },
    }
}

/// Reads one line among the documentation tests of `crate_tests`. Returns
/// whether the line was the summary that ends them.
fn doc_tests_line<'a>(raw: &'a str, crate_tests: &mut Tests<'a>, ctx: &ParseContext) -> (r:
    Result<bool, ParseError>)
    ensures
        match doc_tests_step(raw.spec_bytes(), old(crate_tests)@) {
            LineStep::Stay(grown) => r == Ok::<bool, ParseError>(false) && final(crate_tests)@
                == grown,
            LineStep::End => r == Ok::<bool, ParseError>(true) && *final(crate_tests) == *old(
                crate_tests,
            ),
            LineStep::Fail(kind, message) => (r matches Err(e) && e@
                == failure_at(kind, ctx, message)),
        },
{
    reveal(doc_tests_step);
    let line = trim(raw);
    match common_line(line, ctx) {
        Err(e) => Err(e),
        Ok(Common::Empty) => Ok(false),
        Ok(Common::Summary(declared)) => {
            // The crate has to hold as many documentation tests as the summary declares.
            if crate_tests.doc_tests.len() != declared {
                Err(ParseError::unit_test_miscount(ctx, crate_tests.doc_tests.len()))
            } else {
                Ok(true)
            }
        },
        Ok(Common::Other) => {
            match DocTest::parse(line, ctx) {
                Ok(doc_test) => {
                    proof {
                        assert(crate_tests.doc_tests@.push(doc_test).map_values(
                            |d: DocTest<'a>| d@,
                        ) =~= crate_tests@.doc_tests.push(doc_test@));
                    }
                    crate_tests.doc_tests.push(doc_test);
                    Ok(false)
                },
                Err(e) => Err(e),
            }
        },
    }
}

/// What a line outside a section starts.
enum Start<'a> {
    Nothing,
    UnitTests(CrateName<'a>),
    DocTests(&'a str),
}

/// Reads one line outside a section.
fn heading_line<'a>(raw: &'a str, ctx: &ParseContext) -> (r: Result<Start<'a>, ParseError>)
    ensures
        match heading_of(raw.spec_bytes()) {
            Heading::Nothing => r matches Ok(Start::Nothing),
            Heading::UnitTests(crate_name) => (r matches Ok(Start::UnitTests(c)) && c@
                == crate_name),
            Heading::DocTests(wanted) => (r matches Ok(Start::DocTests(w)) && w.spec_bytes()
                == wanted),
            Heading::Malformed(kind) => (r matches Err(e) && e@
                == failure_at(kind, ctx, Seq::empty())),
        },
{
    proof {
        reveal(heading_of);
        reveal_strlit("Running ");
        reveal_strlit("Doc-tests ");
        lemma_ascii_text("Running ");
        lemma_ascii_text("Doc-tests ");
    }
    let line = trim(raw);
    if starts_with(line, "Running ") {
        match CrateName::parse(trim_start_matches(line, "Running "), ctx) {
            Ok(crate_name) => Ok(Start::UnitTests(crate_name)),
            Err(e) => Err(e),
        }
    } else if starts_with(line, "Doc-tests ") {
        Ok(Start::DocTests(trim(trim_start_matches(line, "Doc-tests "))))
    } else {
        Ok(Start::Nothing)
    }
}

/// An inventory without tests for the crate `crate_name`.
fn empty_inventory<'a>(crate_name: CrateName<'a>) -> (r: Tests<'a>)
    ensures
        r@ == new_inventory(crate_name@),
{
    let r = Tests { crate_name, tests: Vec::new(), doc_tests: Vec::new() };
    proof {
        assert(r@.tests =~= Seq::<Seq<u8>>::empty());
        assert(r@.doc_tests =~= Seq::<DocTestText>::empty());
    }
    r
}

/// A crate name that is nothing but the basename `text`.
fn bare_crate_name<'a>(text: &'a str) -> (r: CrateName<'a>)
    ensures
        r@ == bare_name(text.spec_bytes()),
{
    proof {
        lemma_empty_text();
    }
    CrateName { full_name: text, uuid: "", name: text, basename: text }
}

/// Reads the unit tests of the crate `crate_name`, up to their summary line
/// or the end of the lines.
fn unit_tests_section<'a>(
    ctx: &mut ParseContext<'a>,
    crate_name: CrateName<'a>,
    Ghost(acc): Ghost<Seq<TestsText>>,
) -> (r: Result<Tests<'a>, ParseError>)
    ensures
        final(ctx).text_lines() == old(ctx).text_lines(),
        old(ctx).position() <= final(ctx).position(),
        parse_lines(
            old(ctx).text_lines(),
            old(ctx).position(),
            acc,
            Section::UnitTests(new_inventory(crate_name@)),
        ) == (match r {
            Ok(crate_tests) => parse_lines(
                old(ctx).text_lines(),
                final(ctx).position(),
                acc.push(crate_tests@),
                Section::Outside,
            ),
            Err(e) => Err(e@),
        }),
{
    let ghost lines = ctx.text_lines();
    let ghost goal = parse_lines(
        lines,
        ctx.position(),
        acc,
        Section::UnitTests(new_inventory(crate_name@)),
    );
    let mut crate_tests = empty_inventory(crate_name);
    loop
        invariant_except_break
            parse_lines(lines, ctx.position(), acc, Section::UnitTests(crate_tests@)) == goal,
        invariant
            ctx.text_lines() == lines,
            lines == old(ctx).text_lines(),
            old(ctx).position() <= ctx.position(),
            goal == parse_lines(
                lines,
                old(ctx).position(),
                acc,
                Section::UnitTests(new_inventory(crate_name@)),
            ),
        ensures
            parse_lines(lines, ctx.position(), acc.push(crate_tests@), Section::Outside) == goal,
        decreases lines.len() - ctx.position(),
    {
        match ctx.next() {
            Some(raw) => {
                match unit_tests_line(raw, &mut crate_tests, ctx) {
                    Ok(ended) => {
                        if ended {
                            break ;
                        }
                    },
                    Err(e) => {
                        return Err(e);
                    },
                }
            },
            None => {
                break ;
            },
        }
    }
    Ok(crate_tests)
}

/// Reads the documentation tests of `crate_tests`, up to their summary line
/// or the end of the lines. `crate_tests` has been taken out of the finished
/// inventories at position `at`, which left `others`.
fn doc_tests_section<'a>(
    ctx: &mut ParseContext<'a>,
    crate_tests: &mut Tests<'a>,
    Ghost(others): Ghost<Seq<TestsText>>,
    Ghost(at): Ghost<int>,
) -> (r: Result<(), ParseError>)
    requires
        0 <= at <= others.len(),
    ensures
        final(ctx).text_lines() == old(ctx).text_lines(),
        old(ctx).position() <= final(ctx).position(),
        parse_lines(
            old(ctx).text_lines(),
            old(ctx).position(),
            others.insert(at, old(crate_tests)@),
            Section::DocTests(at),
        ) == (match r {
            Ok(_) => parse_lines(
                old(ctx).text_lines(),
                final(ctx).position(),
                others.insert(at, final(crate_tests)@),
                Section::Outside,
            ),
            Err(e) => Err(e@),
        }),
{
    let ghost lines = ctx.text_lines();
    let ghost goal = parse_lines(
        lines,
        ctx.position(),
        others.insert(at, crate_tests@),
        Section::DocTests(at),
    );
    loop
        invariant_except_break
            parse_lines(
                lines,
                ctx.position(),
                others.insert(at, crate_tests@),
                Section::DocTests(at),
            ) == goal,
        invariant
            ctx.text_lines() == lines,
            lines == old(ctx).text_lines(),
            old(ctx).position() <= ctx.position(),
            goal == parse_lines(
                lines,
                old(ctx).position(),
                others.insert(at, old(crate_tests)@),
                Section::DocTests(at),
            ),
            0 <= at <= others.len(),
        ensures
            parse_lines(
                lines,
                ctx.position(),
                others.insert(at, crate_tests@),
                Section::Outside,
            ) == goal,
        decreases lines.len() - ctx.position(),
    {
        let ghost before = crate_tests@;
        match ctx.next() {
            Some(raw) => {
                proof {
                    assert(others.insert(at, before)[at] == before);
                }
                match doc_tests_line(raw, crate_tests, ctx) {
                    Ok(ended) => {
                        proof {
                            assert(others.insert(at, before).update(at, crate_tests@)
                                =~= others.insert(at, crate_tests@));
                        }
                        if ended {
                            break ;
                        }
                    },
                    Err(e) => {
                        return Err(e);
                    },
                }
            },
            None => {
                break ;
            },
        }
    }
    Ok(())
}

/// Reads the documentation tests of the crate with the basename `wanted`
/// into `tests`: into the crate of this basename that the listing has named
/// before, or into a new one.
fn doc_tests_of_crate<'a>(
    ctx: &mut ParseContext<'a>,
    tests: &mut Vec<Tests<'a>>,
    wanted: &'a str,
) -> (r: Result<(), ParseError>)
    ensures
        final(ctx).text_lines() == old(ctx).text_lines(),
        old(ctx).position() <= final(ctx).position(),
        parse_lines(
            old(ctx).text_lines(),
            old(ctx).position(),
            doc_tests_target(inventories(old(tests)@), wanted.spec_bytes()).0,
            Section::DocTests(doc_tests_target(inventories(old(tests)@), wanted.spec_bytes()).1),
        ) == (match r {
            Ok(_) => parse_lines(
                old(ctx).text_lines(),
                final(ctx).position(),
                inventories(final(tests)@),
                Section::Outside,
            ),
            Err(e) => Err(e@),
        }),
{
    let at = match find_by_basename(tests, wanted) {
        Some(at) => at,
        None => {
            let crate_tests = empty_inventory(bare_crate_name(wanted));
            proof {
                assert(inventories(tests@.push(crate_tests)) =~= inventories(tests@).push(
                    crate_tests@,
                ));
            }
            tests.push(crate_tests);
            tests.len() - 1
        },
    };
    let ghost all = inventories(tests@);
    let mut crate_tests = tests.remove(at);
    let ghost others = inventories(tests@);
    proof {
        assert(others.insert(at as int, crate_tests@) =~= all);
    }
    match doc_tests_section(ctx, &mut crate_tests, Ghost(others), Ghost(at as int)) {
        Ok(_) => {},
        Err(e) => {
            return Err(e);
        },
    }
    proof {
        assert(others.insert(at as int, crate_tests@) =~= inventories(
            tests@.insert(at as int, crate_tests),
        ));
    }
    tests.insert(at, crate_tests);
    Ok(())
}

/// Parses the output of `cargo test -- --list` and returns the result.
/// There will be one entry in the result vector for each crate that was
/// parsed. Within each crate, the tests and doc tests are listed
/// separately. Benchmarks are counted by the listing but not collected.
///
/// # Performance
/// The parsing does not allocate any Strings, it only borrows references
/// to the input `data`. It will allocate some vectors.
pub fn parse_test_list<'a>(data: &'a str) -> (r: Result<Vec<Tests<'a>>, ParseError>)
    ensures
        match r {
            Ok(tests) => listing_of(data.spec_bytes()) == Ok::<Seq<TestsText>, ParseFailure>(
                inventories(tests@),
            ),
            Err(e) => listing_of(data.spec_bytes()) == Err::<Seq<TestsText>, ParseFailure>(e@),
        },
{
    let mut tests: Vec<Tests<'a>> = Vec::new();
    let mut ctx = ParseContext::new(data);
    let ghost lines = split_lines(data.spec_bytes());
    let ghost goal = listing_of(data.spec_bytes());
    proof {
        assert(inventories(tests@) =~= Seq::<TestsText>::empty());
    }
    loop
        invariant
            ctx.text_lines() == lines,
            goal == listing_of(data.spec_bytes()),
            parse_lines(lines, ctx.position(), inventories(tests@), Section::Outside) == goal,
        decreases lines.len() - ctx.position(),
    {
        let raw = match ctx.next() {
            Some(raw) => raw,
            None => {
                return Ok(tests);
            },
        };
        match heading_line(raw, &ctx) {
            Err(e) => {
                return Err(e);
            },
            Ok(Start::Nothing) => {},
            Ok(Start::UnitTests(crate_name)) => {
                let crate_tests = match unit_tests_section(
                    &mut ctx,
                    crate_name,
                    Ghost(inventories(tests@)),
                ) {
                    Ok(crate_tests) => crate_tests,
                    Err(e) => {
                        return Err(e);
                    },
                };
                proof {
                    assert(inventories(tests@.push(crate_tests)) =~= inventories(tests@).push(
                        crate_tests@,
                    ));
                }
                tests.push(crate_tests);
            },
            Ok(Start::DocTests(wanted)) => {
                match doc_tests_of_crate(&mut ctx, &mut tests, wanted) {
                    Ok(_) => {},
                    Err(e) => {
                        return Err(e);
                    },
                }
            },
        }
    }
}

} // verus!

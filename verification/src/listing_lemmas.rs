//! What holds of every listing.
use crate::crate_name::CrateNameText;
use crate::doc_test::{doc_test_of, test_suffix};
use crate::parse_error::{miscount_message, ParseErrorKind, ParseFailure};
use crate::test_list::{
    doc_tests_step, doc_tests_target, failure_on, heading_of, is_section_start, listing_of,
    name_before, new_inventory, parse_lines, summary_counts, unit_tests_step, Heading, LineStep,
    Section, TestsText,
};
use crate::text::{lemma_ascii_text, lines_scan, split_lines, trimmed};
use vstd::string::*;
use vstd::prelude::*;

verus! {

/// The empty listing holds no crate.
pub proof fn lemma_empty_listing()
    ensures
        listing_of(Seq::<u8>::empty()) == Ok::<Seq<TestsText>, ParseFailure>(Seq::empty()),
{
    assert(split_lines(Seq::<u8>::empty()) =~= Seq::<Seq<u8>>::empty());
}

/// The result `r` of parsing, as it is when `by` more lines stand in front
/// of the lines that were parsed: a failure is found as many lines further down.
pub open spec fn further_down(r: Result<Seq<TestsText>, ParseFailure>, by: nat) -> Result<
    Seq<TestsText>,
    ParseFailure,
> {
    match r {
        Ok(inventories) => Ok(inventories),
        Err(failure) => Err(ParseFailure { line_number: failure.line_number + by, ..failure }),
    }
}

/// Lines that have been read make no difference to what the lines behind
/// them lead to, but for the numbers of the lines.
pub proof fn lemma_lines_read_make_no_difference(
    read: Seq<Seq<u8>>,
    rest: Seq<Seq<u8>>,
    i: int,
    acc: Seq<TestsText>,
    section: Section,
)
    requires
        0 <= i,
    ensures
        parse_lines(read + rest, read.len() + i, acc, section) == further_down(
            parse_lines(rest, i, acc, section),
            read.len(),
        ),
    decreases rest.len() - i,
{
    let all = read + rest;
    let at = read.len() + i;
    if i < rest.len() {
        assert(all[at] == rest[i]);
        match section {
            Section::Outside => match heading_of(rest[i]) {
                Heading::Nothing => {
                    lemma_lines_read_make_no_difference(read, rest, i + 1, acc, section);
                },
                Heading::UnitTests(crate_name) => {
                    lemma_lines_read_make_no_difference(
                        read,
                        rest,
                        i + 1,
                        acc,
                        Section::UnitTests(new_inventory(crate_name)),
                    );
                },
                Heading::DocTests(wanted) => {
                    lemma_lines_read_make_no_difference(
                        read,
                        rest,
                        i + 1,
                        doc_tests_target(acc, wanted).0,
                        Section::DocTests(doc_tests_target(acc, wanted).1),
                    );
                },
                Heading::Malformed(kind) => {},
            },
            Section::UnitTests(current) => match unit_tests_step(rest[i], current) {
                LineStep::Stay(grown) => {
                    lemma_lines_read_make_no_difference(
                        read,
                        rest,
                        i + 1,
                        acc,
                        Section::UnitTests(grown),
                    );
                },
                LineStep::End => {
                    lemma_lines_read_make_no_difference(
                        read,
                        rest,
                        i + 1,
                        acc.push(current),
                        Section::Outside,
                    );
                },
                LineStep::Fail(kind, message) => {},
            },
            Section::DocTests(target) => match doc_tests_step(rest[i], acc[target]) {
                LineStep::Stay(grown) => {
                    lemma_lines_read_make_no_difference(
                        read,
                        rest,
                        i + 1,
                        acc.update(target, grown),
                        section,
                    );
                },
                LineStep::End => {
                    lemma_lines_read_make_no_difference(read, rest, i + 1, acc, Section::Outside);
                },
                LineStep::Fail(kind, message) => {},
            },
        }
    }
}

/// Lines outside a section that start no section are passed over.
pub proof fn lemma_lines_passed_over(
    passed: Seq<Seq<u8>>,
    rest: Seq<Seq<u8>>,
    from: int,
    acc: Seq<TestsText>,
)
    requires
        0 <= from <= passed.len(),
        forall|t: int| from <= t < passed.len() ==> heading_of(#[trigger] passed[t]) is Nothing,
    ensures
        parse_lines(passed + rest, from, acc, Section::Outside) == further_down(
            parse_lines(rest, 0, acc, Section::Outside),
            passed.len(),
        ),
    decreases passed.len() - from,
{
    if from < passed.len() {
        assert((passed + rest)[from] == passed[from]);
        lemma_lines_passed_over(passed, rest, from + 1, acc);
    } else {
        lemma_lines_read_make_no_difference(passed, rest, 0, acc, Section::Outside);
    }
}

/// The lines of a text that goes on behind a line feed are the lines up to
/// the line feed and the lines behind it.
pub proof fn lemma_lines_of_two_texts(first: Seq<u8>, second: Seq<u8>)
    requires
        first.len() == 0 || first.last() == 0x0a,
    ensures
        split_lines(first + second) == split_lines(first) + split_lines(second),
{
    if first.len() == 0 {
        assert(first + second =~= second);
        assert(split_lines(first) =~= Seq::<Seq<u8>>::empty());
        assert(split_lines(first) + split_lines(second) =~= split_lines(second));
    } else {
        lemma_scan_of_two_texts(first, second, 0, 0);
    }
}

proof fn lemma_scan_behind(first: Seq<u8>, second: Seq<u8>, start: int, i: int)
    requires
        0 <= start <= i,
    ensures
        lines_scan(first + second, first.len() + start, first.len() + i) == lines_scan(
            second,
            start,
            i,
        ),
    decreases second.len() - i,
{
    let all = first + second;
    let n = first.len() as int;
    if i >= second.len() {
        if start < second.len() {
            assert(all.subrange(n + start, all.len() as int) =~= second.subrange(
                start,
                second.len() as int,
            ));
        }
    } else {
        assert(all[n + i] == second[i]);
        if second[i] == 0x0a {
            let end = if start < i && second[i - 1] == 0x0d {
                i - 1
            } else {
                i
            };
            if start < i {
                assert(all[n + i - 1] == second[i - 1]);
            }
            assert(all.subrange(n + start, n + end) =~= second.subrange(start, end));
            lemma_scan_behind(first, second, i + 1, i + 1);
        } else {
            lemma_scan_behind(first, second, start, i + 1);
        }
    }
}

proof fn lemma_scan_of_two_texts(first: Seq<u8>, second: Seq<u8>, start: int, i: int)
    requires
        first.len() > 0,
        first.last() == 0x0a,
        0 <= start <= i <= first.len(),
        i == first.len() ==> start == i,
    ensures
        lines_scan(first + second, start, i) == lines_scan(first, start, i) + lines_scan(
            second,
            0,
            0,
        ),
    decreases first.len() - i,
{
    let all = first + second;
    let n = first.len() as int;
    if i == n {
        lemma_scan_behind(first, second, 0, 0);
        assert(lines_scan(first, start, i) =~= Seq::<Seq<u8>>::empty());
        assert(lines_scan(first, start, i) + lines_scan(second, 0, 0) =~= lines_scan(
            second,
            0,
            0,
        ));
    } else {
        assert(all[i] == first[i]);
        if first[i] == 0x0a {
            let end = if start < i && first[i - 1] == 0x0d {
                i - 1
            } else {
                i
            };
            if start < i {
                assert(all[i - 1] == first[i - 1]);
            }
            assert(all.subrange(start, end) =~= first.subrange(start, end));
            lemma_scan_of_two_texts(first, second, i + 1, i + 1);
            let line = first.subrange(start, end);
            assert((seq![line] + lines_scan(first, i + 1, i + 1)) + lines_scan(second, 0, 0)
                =~= seq![line] + (lines_scan(first, i + 1, i + 1) + lines_scan(second, 0, 0)));
        } else {
            lemma_scan_of_two_texts(first, second, start, i + 1);
        }
    }
}

/// A line starts no section if and only if, after trimming, it begins
/// neither with "Running " nor with "Doc-tests ".
pub proof fn lemma_lines_that_start_no_section(raw: Seq<u8>)
    ensures
        heading_of(raw) is Nothing <==> !is_section_start(trimmed(raw)),
{
    reveal(heading_of);
}

/// What stands in front of the first section of a listing is passed over:
/// a listing with a preamble of whole lines, none of which starts a
/// section, denotes what the listing without the preamble denotes, and fails
/// where that fails, as many lines further down as the preamble has.
pub proof fn lemma_preamble_is_passed_over(preamble: Seq<u8>, listing: Seq<u8>)
    requires
        preamble.len() == 0 || preamble.last() == 0x0a,
        forall|t: int|
            0 <= t < split_lines(preamble).len() ==> !is_section_start(
                trimmed(#[trigger] split_lines(preamble)[t]),
            ),
    ensures
        listing_of(preamble + listing) == further_down(
            listing_of(listing),
            split_lines(preamble).len(),
        ),
{
    let passed = split_lines(preamble);
    assert forall|t: int| 0 <= t < passed.len() implies heading_of(#[trigger] passed[t])
        is Nothing by {
        lemma_lines_that_start_no_section(passed[t]);
    }
    lemma_lines_of_two_texts(preamble, listing);
    lemma_lines_passed_over(passed, split_lines(listing), 0, Seq::empty());
}

/// The line names a test, and is nothing else: it is not empty, starts no
/// section, is no summary, and ends with ": test".
pub open spec fn is_test_line(raw: Seq<u8>) -> bool {
    let line = trimmed(raw);
    &&& line.len() > 0
    &&& !is_section_start(line)
    &&& summary_counts(line) is None
    &&& name_before(line, test_suffix()) is Some
}

/// The line is a summary line that declares `declared` tests.
pub open spec fn is_summary_line(raw: Seq<u8>, declared: usize) -> bool {
    let line = trimmed(raw);
    &&& line.len() > 0
    &&& !is_section_start(line)
    &&& summary_counts(line) matches Some(counts)
    &&& counts.0 == declared
}

/// The names of the tests that the lines from `from` up to `to` name.
pub open spec fn names_of_test_lines(lines: Seq<Seq<u8>>, from: int, to: int) -> Seq<Seq<u8>> {
    Seq::new(
        (to - from) as nat,
        |t: int| name_before(trimmed(lines[from + t]), test_suffix()).unwrap(),
    )
}

/// Lines that name a test add their tests to the unit tests that are being read.
pub proof fn lemma_test_lines_are_collected(
    lines: Seq<Seq<u8>>,
    from: int,
    to: int,
    acc: Seq<TestsText>,
    current: TestsText,
)
    requires
        0 <= from <= to <= lines.len(),
        forall|t: int| from <= t < to ==> is_test_line(#[trigger] lines[t]),
    ensures
        parse_lines(lines, from, acc, Section::UnitTests(current)) == parse_lines(
            lines,
            to,
            acc,
            Section::UnitTests(
                TestsText {
                    tests: current.tests + names_of_test_lines(lines, from, to),
                    ..current
                },
            ),
        ),
    decreases to - from,
{
    reveal(unit_tests_step);
    if from == to {
        assert(current.tests + names_of_test_lines(lines, from, to) =~= current.tests);
    } else {
        assert(is_test_line(lines[from]));
        let name = name_before(trimmed(lines[from]), test_suffix()).unwrap();
        let grown = TestsText { tests: current.tests.push(name), ..current };
        lemma_test_lines_are_collected(lines, from + 1, to, acc, grown);
        assert(grown.tests + names_of_test_lines(lines, from + 1, to) =~= current.tests
            + names_of_test_lines(lines, from, to));
    }
}

/// The unit tests of a crate: a line that names the crate, `k` lines that
/// name a test each, and a summary line. Where the summary declares `k`
/// tests, the inventory of the crate has these `k` tests, and the parser
/// goes on behind the summary. Where it declares another number, the
/// listing fails on the summary line as a miscount, and the message names `k`.
pub proof fn lemma_summary_round_trip(
    lines: Seq<Seq<u8>>,
    acc: Seq<TestsText>,
    crate_name: CrateNameText,
    k: int,
    declared: usize,
)
    requires
        0 <= k,
        lines.len() >= k + 2,
        heading_of(lines[0]) == Heading::UnitTests(crate_name),
        forall|t: int| 1 <= t <= k ==> is_test_line(#[trigger] lines[t]),
        is_summary_line(lines[k + 1], declared),
    ensures
        declared == k ==> parse_lines(lines, 0, acc, Section::Outside) == parse_lines(
            lines,
            k + 2,
            acc.push(
                TestsText {
                    crate_name,
                    tests: names_of_test_lines(lines, 1, k + 1),
                    doc_tests: Seq::empty(),
                },
            ),
            Section::Outside,
        ),
        declared == k && lines.len() == k + 2 ==> parse_lines(lines, 0, acc, Section::Outside)
            == Ok::<Seq<TestsText>, ParseFailure>(
            acc.push(
                TestsText {
                    crate_name,
                    tests: names_of_test_lines(lines, 1, k + 1),
                    doc_tests: Seq::empty(),
                },
            ),
        ),
        names_of_test_lines(lines, 1, k + 1).len() == k,
        declared != k ==> parse_lines(lines, 0, acc, Section::Outside) == Err::<
            Seq<TestsText>,
            ParseFailure,
        >(failure_on(ParseErrorKind::UnitTestMiscount, lines, k + 1, miscount_message(k as nat))),
{
    reveal(unit_tests_step);
    let start = new_inventory(crate_name);
    lemma_test_lines_are_collected(lines, 1, k + 1, acc, start);
    let found = TestsText { tests: start.tests + names_of_test_lines(lines, 1, k + 1), ..start };
    assert(found.tests =~= names_of_test_lines(lines, 1, k + 1));
    assert(parse_lines(lines, 0, acc, Section::Outside) == parse_lines(
        lines,
        1,
        acc,
        Section::UnitTests(start),
    ));
}

/// The line leaves the parser among the unit tests that it is reading: it
/// is empty, or it is neither the start of a section nor a summary.
pub open spec fn stays_among_unit_tests(raw: Seq<u8>) -> bool {
    let line = trimmed(raw);
    line.len() == 0 || (!is_section_start(line) && summary_counts(line) is None)
}

/// The line leaves the parser among the documentation tests that it is
/// reading: it is empty, or it names a documentation test and is neither
/// the start of a section nor a summary.
pub open spec fn stays_among_doc_tests(raw: Seq<u8>) -> bool {
    let line = trimmed(raw);
    line.len() == 0 || (!is_section_start(line) && summary_counts(line) is None && doc_test_of(
        line,
    ) is Some)
}

/// The start of a section among the unit tests of a crate, before their
/// summary line, is an overrun: the listing fails on the line that starts
/// the section.
pub proof fn lemma_unit_tests_overrun(
    lines: Seq<Seq<u8>>,
    from: int,
    at: int,
    acc: Seq<TestsText>,
    current: TestsText,
)
    requires
        0 <= from <= at < lines.len(),
        forall|t: int| from <= t < at ==> stays_among_unit_tests(#[trigger] lines[t]),
        is_section_start(trimmed(lines[at])),
    ensures
        parse_lines(lines, from, acc, Section::UnitTests(current)) == Err::<
            Seq<TestsText>,
            ParseFailure,
        >(failure_on(ParseErrorKind::SectionOverrun, lines, at, Seq::empty())),
    decreases at - from,
{
    reveal(unit_tests_step);
    if from == at {
        lemma_section_start_is_not_empty(trimmed(lines[at]));
    } else {
        assert(stays_among_unit_tests(lines[from]));
        let step = unit_tests_step(lines[from], current);
        lemma_unit_tests_overrun(lines, from + 1, at, acc, step->Stay_0);
    }
}

/// The start of a section among the documentation tests of a crate, before
/// their summary line, is an overrun: the listing fails on the line that
/// starts the section.
pub proof fn lemma_doc_tests_overrun(
    lines: Seq<Seq<u8>>,
    from: int,
    at: int,
    acc: Seq<TestsText>,
    target: int,
)
    requires
        0 <= from <= at < lines.len(),
        0 <= target < acc.len(),
        forall|t: int| from <= t < at ==> stays_among_doc_tests(#[trigger] lines[t]),
        is_section_start(trimmed(lines[at])),
    ensures
        parse_lines(lines, from, acc, Section::DocTests(target)) == Err::<
            Seq<TestsText>,
            ParseFailure,
        >(failure_on(ParseErrorKind::SectionOverrun, lines, at, Seq::empty())),
    decreases at - from,
{
    reveal(doc_tests_step);
    if from == at {
        lemma_section_start_is_not_empty(trimmed(lines[at]));
    } else {
        assert(stays_among_doc_tests(lines[from]));
        let step = doc_tests_step(lines[from], acc[target]);
        lemma_doc_tests_overrun(lines, from + 1, at, acc.update(target, step->Stay_0), target);
    }
}

/// A line that starts a section is not empty.
pub proof fn lemma_section_start_is_not_empty(line: Seq<u8>)
    requires
        is_section_start(line),
    ensures
        line.len() > 0,
{
    reveal_strlit("Running ");
    reveal_strlit("Doc-tests ");
    lemma_ascii_text("Running ");
    lemma_ascii_text("Doc-tests ");
}

} // verus!

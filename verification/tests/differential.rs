use rtest::parse_error::ParseErrorKind;
use rtest::test_list::parse_test_list;

/// One crate of a listing, in owned strings.
#[derive(Debug, PartialEq)]
struct Inventory {
    full_name: String,
    uuid: String,
    name: String,
    basename: String,
    tests: Vec<String>,
    doc_tests: Vec<(String, usize, String)>,
}

/// A failure of the parser, in owned strings.
#[derive(Debug, PartialEq)]
struct Failure {
    kind: ParseErrorKind,
    line_number: usize,
    line: String,
    message: String,
}

fn leading_number(text: &str) -> Option<usize> {
    let digits = match text.find(|c: char| !c.is_ascii_digit()) {
        Some(at) => &text[..at],
        None => text,
    };
    digits.parse().ok()
}

fn summary(line: &str) -> Option<(usize, usize)> {
    let (left, right) = line.split_once(", ")?;
    if !(left.ends_with(" tests") || left.ends_with(" test")) {
        return None;
    }
    if !(right.ends_with(" benchmarks") || right.ends_with(" benchmark")) {
        return None;
    }
    Some((leading_number(left)?, leading_number(right)?))
}

fn crate_name(text: &str) -> Result<Inventory, ParseErrorKind> {
    let full_name = text.trim();
    if full_name.is_empty() {
        return Err(ParseErrorKind::MalformedCrateName);
    }
    let (name, uuid) = match full_name.rfind('-') {
        Some(at) => {
            let uuid = &full_name[at + 1..];
            if uuid.len() != 16 || !uuid.chars().all(|c| c.is_ascii_hexdigit()) {
                return Err(ParseErrorKind::MalformedUuid);
            }
            (&full_name[..at], uuid)
        }
        None => (full_name, ""),
    };
    let basename = match (uuid.is_empty(), name.rfind('/')) {
        (false, Some(at)) => &name[at + 1..],
        _ => name,
    };
    Ok(Inventory {
        full_name: full_name.to_string(),
        uuid: uuid.to_string(),
        name: name.to_string(),
        basename: basename.to_string(),
        tests: Vec::new(),
        doc_tests: Vec::new(),
    })
}

fn doc_test(line: &str) -> Option<(String, usize, String)> {
    let line = line.trim();
    let at = line.find(" - ")?;
    let file = &line[..at];
    let rest = line[at + 3..].trim_end_matches(": test");
    let marker = rest.rfind(" (line ")?;
    let number = leading_number(&rest[marker + 7..])?;
    Some((rest[..marker].to_string(), number, file.to_string()))
}

enum Reading {
    Outside,
    UnitTests(Inventory),
    DocTests(usize),
}

/// The listing, read by the string functions of the standard library.
fn by_the_standard_library(data: &str) -> Result<Vec<Inventory>, Failure> {
    let mut finished: Vec<Inventory> = Vec::new();
    let mut reading = Reading::Outside;
    for (index, raw) in data.lines().enumerate() {
        let fail = |kind, message: String| Failure {
            kind,
            line_number: index + 1,
            line: raw.to_string(),
            message,
        };
        let line = raw.trim();
        let starts_section = line.starts_with("Running ") || line.starts_with("Doc-tests ");
        reading = match reading {
            Reading::Outside => {
                if line.starts_with("Running ") {
                    match crate_name(line.trim_start_matches("Running ")) {
                        Ok(inventory) => Reading::UnitTests(inventory),
                        Err(kind) => return Err(fail(kind, String::new())),
                    }
                } else if line.starts_with("Doc-tests ") {
                    let wanted = line.trim_start_matches("Doc-tests ").trim();
                    let at = match finished.iter().position(|i| i.basename == wanted) {
                        Some(at) => at,
                        None => {
                            finished.push(Inventory {
                                full_name: wanted.to_string(),
                                uuid: String::new(),
                                name: wanted.to_string(),
                                basename: wanted.to_string(),
                                tests: Vec::new(),
                                doc_tests: Vec::new(),
                            });
                            finished.len() - 1
                        }
                    };
                    Reading::DocTests(at)
                } else {
                    Reading::Outside
                }
            }
            Reading::UnitTests(mut inventory) => {
                if line.is_empty() {
                    Reading::UnitTests(inventory)
                } else if starts_section {
                    return Err(fail(ParseErrorKind::SectionOverrun, String::new()));
                } else if let Some((declared, _)) = summary(line) {
                    if declared != inventory.tests.len() {
                        let message = format!("Actual found test count: {}", inventory.tests.len());
                        return Err(fail(ParseErrorKind::UnitTestMiscount, message));
                    }
                    finished.push(inventory);
                    Reading::Outside
                } else {
                    if line.ends_with(": test") {
                        inventory.tests.push(line.trim_end_matches(": test").to_string());
                    }
                    Reading::UnitTests(inventory)
                }
            }
            Reading::DocTests(at) => {
                if line.is_empty() {
                    Reading::DocTests(at)
                } else if starts_section {
                    return Err(fail(ParseErrorKind::SectionOverrun, String::new()));
                } else if let Some((declared, _)) = summary(line) {
                    if declared != finished[at].doc_tests.len() {
                        let message =
                            format!("Actual found test count: {}", finished[at].doc_tests.len());
                        return Err(fail(ParseErrorKind::UnitTestMiscount, message));
                    }
                    Reading::Outside
                } else {
                    match doc_test(line) {
                        Some(test) => finished[at].doc_tests.push(test),
                        None => {
                            return Err(fail(ParseErrorKind::MalformedDocTestLine, String::new()))
                        }
                    }
                    Reading::DocTests(at)
                }
            }
        };
    }
    if let Reading::UnitTests(inventory) = reading {
        finished.push(inventory);
    }
    Ok(finished)
}

/// The listing, read by the parser.
fn by_the_parser(data: &str) -> Result<Vec<Inventory>, Failure> {
    match parse_test_list(data) {
        Ok(tests) => Ok(tests
            .iter()
            .map(|t| Inventory {
                full_name: t.crate_name.full_name.to_string(),
                uuid: t.crate_name.uuid.to_string(),
                name: t.crate_name.name.to_string(),
                basename: t.crate_name.basename.to_string(),
                tests: t.tests.iter().map(|n| n.to_string()).collect(),
                doc_tests: t
                    .doc_tests
                    .iter()
                    .map(|d| (d.name.to_string(), d.line_number, d.file_name.to_string()))
                    .collect(),
            })
            .collect()),
        Err(e) => Err(Failure {
            kind: e.kind,
            line_number: e.line_number,
            line: e.line,
            message: e.message,
        }),
    }
}

const LINES: [&str; 40] = [
    "Running /deps/lib-0123456789abcdef",
    "Running target/debug/deps/bin-ABCDEF0123456789",
    "Running other/lib-00000000000000ff",
    "Running unittests",
    "Running Running nested",
    "Running /deps/bad-0123",
    "Running /deps/bad-0123456789abcdeg",
    "Running ",
    "Running",
    "Doc-tests lib",
    "Doc-tests bin",
    "Doc-tests fresh",
    "Doc-tests my-crate",
    "Doc-tests  spaced ",
    "Doc-tests",
    "a::b::c: test",
    "d::e: test",
    "d::e: test",
    "x: test: test",
    ": test",
    "noise",
    "y: bench",
    "Finished test [unoptimized + debuginfo] target(s) in 0.05s",
    "",
    "   ",
    "0 tests, 0 benchmarks",
    "1 test, 0 benchmarks",
    "1 tests, 1 benchmark",
    "2 tests, 0 benchmarks",
    "3 tests, 7 benchmarks",
    "2 test, 0 benchmark",
    "2 tests 0 benchmarks",
    "tests, 0 benchmarks",
    "99999999999999999999999 tests, 0 benchmarks",
    "src/lib.rs - f (line 3): test",
    "src/lib.rs - g::h (line 12)",
    "src/a b.rs - i - j (line 4) (line 5): test: test",
    "src/x.rs - k (line z): test",
    "src/x.rs no separator",
    "gr\u{fc}n - \u{65e5}\u{672c} (line 7): test",
];

const MARGINS: [&str; 5] = ["", "  ", "\t", "\u{a0} ", "        "];

const ENDINGS: [&str; 3] = ["\n", "\n", "\r\n"];

struct Generator(u64);

impl Generator {
    fn next(&mut self, bound: usize) -> usize {
        self.0 = self.0.wrapping_mul(6364136223846793005).wrapping_add(1442695040888963407);
        ((self.0 >> 33) as usize) % bound
    }

    fn listing(&mut self) -> String {
        let mut text = String::new();
        let count = self.next(14);
        for at in 0..count {
            text.push_str(MARGINS[self.next(MARGINS.len())]);
            text.push_str(LINES[self.next(LINES.len())]);
            text.push_str(MARGINS[self.next(MARGINS.len())]);
            if at + 1 < count || self.next(2) == 0 {
                text.push_str(ENDINGS[self.next(ENDINGS.len())]);
            }
        }
        text
    }
}

#[test]
fn the_parser_reads_what_the_standard_library_reads() {
    let mut generator = Generator(0x5eed);
    let mut succeeded = 0;
    let mut kinds: Vec<ParseErrorKind> = Vec::new();
    for _ in 0..30_000 {
        let listing = generator.listing();
        let expected = by_the_standard_library(&listing);
        let found = by_the_parser(&listing);
        assert_eq!(found, expected, "for the listing {:?}", listing);
        match found {
            Ok(_) => succeeded += 1,
            Err(failure) => {
                if !kinds.contains(&failure.kind) {
                    kinds.push(failure.kind);
                }
            }
        }
    }
    assert!(succeeded > 1_000);
    assert!(kinds.contains(&ParseErrorKind::MalformedUuid));
    assert!(kinds.contains(&ParseErrorKind::UnitTestMiscount));
    assert!(kinds.contains(&ParseErrorKind::MalformedDocTestLine));
    assert!(kinds.contains(&ParseErrorKind::SectionOverrun));
}

#[test]
fn every_single_line_is_read_alike() {
    for first in LINES {
        for second in LINES {
            for third in ["", "1 test, 0 benchmarks", "src/lib.rs - f (line 3): test"] {
                let listing = format!("{}\n {}\r\n{}", first, second, third);
                assert_eq!(
                    by_the_parser(&listing),
                    by_the_standard_library(&listing),
                    "for the listing {:?}",
                    listing
                );
            }
        }
    }
}

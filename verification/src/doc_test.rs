//! One documentation test, as a listing names it.
use crate::parse_context::ParseContext;
use crate::parse_error::{failure_at, ParseError, ParseErrorKind};
use crate::text::{
    find, find_first, find_last, lemma_ascii_text, lemma_boundary_after_scalar, lemma_find_from,
    lemma_rfind_from, lemma_str_bytes_valid, rfind, slice, strip_suffixes, trim, trim_end_matches,
    trimmed,
};
use crate::utils::{leading_usize, parse_leading_usize};
use vstd::prelude::*;
use vstd::string::*;

verus! {

/// A documentation test: its name, the file it stands in and the line
/// where it starts. Made from a line of the form
/// "src/lib.rs - passing_doctest (line 3): test".
#[derive(Debug)]
pub struct DocTest<'a> {
    pub name: &'a str,
    pub line_number: usize,
    pub file_name: &'a str,
}

/// What a `DocTest` holds.
pub struct DocTestText {
    pub name: Seq<u8>,
    pub line_number: usize,
    pub file_name: Seq<u8>,
}

impl<'a> View for DocTest<'a> {
    type V = DocTestText;

    open spec fn view(&self) -> DocTestText {
        DocTestText {
            name: self.name.spec_bytes(),
            line_number: self.line_number,
            file_name: self.file_name.spec_bytes(),
        }
    }
}

impl<'a> Clone for DocTest<'a> {
    fn clone(&self) -> (r: Self)
        ensures
            r == *self,
    {
        DocTest { name: self.name, line_number: self.line_number, file_name: self.file_name }
    }
}

/// The text between the file and the name of a documentation test.
pub open spec fn file_separator() -> Seq<u8> {
    " - ".spec_bytes()
}

/// The text with which a listing ends the line of a test.
pub open spec fn test_suffix() -> Seq<u8> {
    ": test".spec_bytes()
}

/// The text between the name of a documentation test and its line.
pub open spec fn line_marker() -> Seq<u8> {
    " (line ".spec_bytes()
}

/// The documentation test that the line `raw` denotes, if it denotes one.
///
/// The line is trimmed. Left of its first " - " stands the file. From what
/// stands right of it every ": test" at the end is taken away; in the rest
/// the last " (line " parts the name from the number of the line, which has
/// to begin with a decimal number.
pub open spec fn doc_test_of(raw: Seq<u8>) -> Option<DocTestText> {
    let line = trimmed(raw);
    match find(line, file_separator()) {
        Some(idx) => {
            let file_name = line.subrange(0, idx);
            let remainder = strip_suffixes(
                line.subrange(idx + file_separator().len(), line.len() as int),
                test_suffix(),
            );
            match rfind(remainder, line_marker()) {
                Some(at) => {
                    let name = remainder.subrange(0, at);
                    let line_expr = remainder.subrange(
                        at + line_marker().len(),
                        remainder.len() as int,
                    );
                    match leading_usize(line_expr) {
                        Some(line_number) => Some(DocTestText { name, line_number, file_name }),
                        None => None,
                    }
                },
                None => None,
            }
        },
        None => None,
    }
}

impl<'a> DocTest<'a> {
    /// Construct a new `DocTest` from a line of the form
    /// "src/lib.rs - passing_doctest (line 3): test". A line of another
    /// form is refused as `MalformedDocTestLine`.
    pub fn parse<'ctx>(line: &'a str, ctx: &'ctx ParseContext) -> (r: Result<
        DocTest<'a>,
        ParseError,
    >)
        ensures
            match r {
                Ok(t) => doc_test_of(line.spec_bytes()) == Some(t@),
                Err(e) => doc_test_of(line.spec_bytes()) is None && e@ == failure_at(
                    ParseErrorKind::MalformedDocTestLine,
                    ctx,
                    Seq::empty(),
                ),
            },
    {
        let line = trim(line);
        if line.as_bytes().len() == 0 {
            proof {
                lemma_find_from(line.spec_bytes(), file_separator(), 0);
            }
            return Err(ParseError::malformed_doc_test_line(ctx));
        }
        proof {
            reveal_strlit(" - ");
            reveal_strlit(": test");
            reveal_strlit(" (line ");
            lemma_ascii_text(" - ");
            lemma_ascii_text(": test");
            lemma_ascii_text(" (line ");
            lemma_str_bytes_valid(line);
        }
        match find_first(line, " - ") {
            Some(idx) => {
                let n = line.as_bytes().len();
                proof {
                    let b = line.spec_bytes();
                    lemma_find_from(b, file_separator(), 0);
                    let w = b.subrange(idx as int, idx + 3);
                    assert(w[0] == file_separator()[0]);
                    assert(w[2] == file_separator()[2]);
                    lemma_boundary_after_scalar(b, idx + 2);
                }
                let file_name = slice(line, 0, idx);
                let remainder = slice(line, idx + 3, n);
                let remainder = trim_end_matches(remainder, ": test");
                match find_last(remainder, " (line ") {
                    Some(at) => {
                        let m = remainder.as_bytes().len();
                        proof {
                            let b = remainder.spec_bytes();
                            lemma_str_bytes_valid(remainder);
                            lemma_rfind_from(b, line_marker(), b.len() - line_marker().len());
                            let w = b.subrange(at as int, at + 7);
                            assert(w[0] == line_marker()[0]);
                            assert(w[6] == line_marker()[6]);
                            lemma_boundary_after_scalar(b, at + 6);
                        }
                        let name = slice(remainder, 0, at);
                        let line_expr = slice(remainder, at + 7, m);
                        match parse_leading_usize(line_expr) {
                            Some(line_number) => Ok(Self { name, line_number, file_name }),
                            None => Err(ParseError::malformed_doc_test_line(ctx)),
                        }
                    },
                    None => Err(ParseError::malformed_doc_test_line(ctx)),
                }
            },
            None => Err(ParseError::malformed_doc_test_line(ctx)),
        }
    }
}

} // verus!

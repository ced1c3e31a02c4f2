//! What the parser reports when a listing is not well formed.
use crate::parse_context::ParseContext;
use crate::text::{lemma_empty_text, string_bytes};
use crate::utils::{decimal_chars, push_decimal};
use vstd::prelude::*;
use vstd::string::*;

verus! {

/// The ways in which a listing can be malformed.
#[derive(Debug, Clone, Copy, PartialEq, Eq, Structural)]
pub enum ParseErrorKind {
    ExtraInput,
    UnexpectedEoF,
    MalformedCrateName,
    MalformedUuid,
    UnitTestMiscount,
    BenchmarkMiscount,
    DocTestMiscount,
    MalformedDocTestLine,
    SectionOverrun,
}

/// A failure to parse: what went wrong, and on which line.
#[derive(Debug)]
pub struct ParseError {
    /// The number of the offending line, counted from 1; 0 where parsing had
    /// not started.
    pub line_number: usize,
    /// The text of the offending line.
    pub line: String,
    pub kind: ParseErrorKind,
    /// More about the failure, or empty.
    pub message: String,
}

/// What a `ParseError` says.
pub struct ParseFailure {
    pub kind: ParseErrorKind,
    pub line_number: nat,
    pub line: Seq<u8>,
    pub message: Seq<char>,
}

impl View for ParseError {
    type V = ParseFailure;

    open spec fn view(&self) -> ParseFailure {
        ParseFailure {
            kind: self.kind,
            line_number: self.line_number as nat,
            line: string_bytes(&self.line),
            message: self.message@,
        }
    }
}

impl Clone for ParseError {
    fn clone(&self) -> (r: Self)
        ensures
            r@ == self@,
    {
        ParseError {
            line_number: self.line_number,
            line: self.line.clone(),
            kind: self.kind,
            message: self.message.clone(),
        }
    }
}

/// The name of a kind of failure.
pub open spec fn kind_name(kind: ParseErrorKind) -> Seq<char> {
    match kind {
        ParseErrorKind::ExtraInput => "ExtraInput"@,
        ParseErrorKind::UnexpectedEoF => "UnexpectedEoF"@,
        ParseErrorKind::MalformedCrateName => "MalformedCrateName"@,
        ParseErrorKind::MalformedUuid => "MalformedUuid"@,
        ParseErrorKind::UnitTestMiscount => "UnitTestMiscount"@,
        ParseErrorKind::BenchmarkMiscount => "BenchmarkMiscount"@,
        ParseErrorKind::DocTestMiscount => "DocTestMiscount"@,
        ParseErrorKind::MalformedDocTestLine => "MalformedDocTestLine"@,
        ParseErrorKind::SectionOverrun => "SectionOverrun"@,
    }
}

impl ParseFailure {
    /// The failure in words: its kind and the number of its line, and
    /// behind them its message, where it has one.
    pub open spec fn description(self) -> Seq<char> {
        let place = kind_name(self.kind) + " on line "@ + decimal_chars(self.line_number);
        if self.message.len() > 0 {
            place + ": "@ + self.message
        } else {
            place
        }
    }
}

/// The failure of kind `kind` on the current line of `ctx`.
pub open spec fn failure_at(
    kind: ParseErrorKind,
    ctx: &ParseContext,
    message: Seq<char>,
) -> ParseFailure {
    ParseFailure {
        kind,
        line_number: ctx.line_number_or_zero() as nat,
        line: ctx.line_or_empty(),
        message,
    }
}

/// The message of a miscount: it names the number of tests that were found.
pub open spec fn miscount_message(actual_test_count: nat) -> Seq<char> {
    "Actual found test count: "@ + decimal_chars(actual_test_count)
}

impl ParseError {
    /// The failure in words, for those who show it to the user.
    pub fn describe(&self) -> (text: String)
        ensures
            text@ == self@.description(),
    {
        let name = match self.kind {
            ParseErrorKind::ExtraInput => "ExtraInput",
            ParseErrorKind::UnexpectedEoF => "UnexpectedEoF",
            ParseErrorKind::MalformedCrateName => "MalformedCrateName",
            ParseErrorKind::MalformedUuid => "MalformedUuid",
            ParseErrorKind::UnitTestMiscount => "UnitTestMiscount",
            ParseErrorKind::BenchmarkMiscount => "BenchmarkMiscount",
            ParseErrorKind::DocTestMiscount => "DocTestMiscount",
            ParseErrorKind::MalformedDocTestLine => "MalformedDocTestLine",
            ParseErrorKind::SectionOverrun => "SectionOverrun",
        };
        let mut text = String::from_str(name);
        text.append(" on line ");
        push_decimal(&mut text, self.line_number);
        if !self.message.as_str().is_empty() {
            text.append(": ");
            text.append(self.message.as_str());
        }
        text
    }

    /// Construct a `ParseError` of the specified `kind`
    /// based on the current `ParseContext`.
    pub fn with_kind(kind: ParseErrorKind, ctx: &ParseContext) -> (e: Self)
        ensures
            e@ == failure_at(kind, ctx, Seq::empty()),
    {
        Self::with_message(kind, ctx, String::new())
    }

    /// Construct a `ParseError` of the specified `kind` that carries `message`,
    /// based on the current `ParseContext`.
    pub fn with_message(kind: ParseErrorKind, ctx: &ParseContext, message: String) -> (e: Self)
        ensures
            e@ == failure_at(kind, ctx, message@),
    {
        let line_number = match ctx.current_line_number() {
            Some(n) => n,
            None => 0,
        };
        let line = match ctx.current_line() {
            Some(l) => l.to_owned(),
            None => String::new(),
        };
        proof {
            lemma_empty_text();
        }
        Self { line_number, line, kind, message }
    }

    /// Construct a `ParseError` of kind `ParseErrorKind::ExtraInput`
    /// based on the current `ParseContext`.
    pub fn extra_input(ctx: &ParseContext) -> (e: Self)
        ensures
            e@ == failure_at(ParseErrorKind::ExtraInput, ctx, Seq::empty()),
    {
        Self::with_kind(ParseErrorKind::ExtraInput, ctx)
    }

    /// Construct a `ParseError` of kind `ParseErrorKind::UnexpectedEoF`
    /// based on the current `ParseContext`.
    pub fn unexpected_eof(ctx: &ParseContext) -> (e: Self)
        ensures
            e@ == failure_at(ParseErrorKind::UnexpectedEoF, ctx, Seq::empty()),
    {
        Self::with_kind(ParseErrorKind::UnexpectedEoF, ctx)
    }

    /// Construct a `ParseError` of kind `ParseErrorKind::MalformedCrateName`
    /// based on the current `ParseContext`.
    pub fn malformed_crate_name(ctx: &ParseContext) -> (e: Self)
        ensures
            e@ == failure_at(ParseErrorKind::MalformedCrateName, ctx, Seq::empty()),
    {
        Self::with_kind(ParseErrorKind::MalformedCrateName, ctx)
    }

    /// Construct a `ParseError` of kind `ParseErrorKind::MalformedUuid`
    /// based on the current `ParseContext`.
    pub fn malformed_uuid(ctx: &ParseContext) -> (e: Self)
        ensures
            e@ == failure_at(ParseErrorKind::MalformedUuid, ctx, Seq::empty()),
    {
        Self::with_kind(ParseErrorKind::MalformedUuid, ctx)
    }

    /// Construct a `ParseError` of kind `ParseErrorKind::UnitTestMiscount`
    /// based on the current `ParseContext`. Its message names
    /// `actual_test_count`, the number of tests that were found.
    pub fn unit_test_miscount(ctx: &ParseContext, actual_test_count: usize) -> (e: Self)
        ensures
            e@ == failure_at(
                ParseErrorKind::UnitTestMiscount,
                ctx,
                miscount_message(actual_test_count as nat),
            ),
    {
        let mut message = String::from_str("Actual found test count: ");
        push_decimal(&mut message, actual_test_count);
        Self::with_message(ParseErrorKind::UnitTestMiscount, ctx, message)
    }

    /// Construct a `ParseError` of kind `ParseErrorKind::BenchmarkMiscount`
    /// based on the current `ParseContext`.
    pub fn benchmark_miscount(ctx: &ParseContext) -> (e: Self)
        ensures
            e@ == failure_at(ParseErrorKind::BenchmarkMiscount, ctx, Seq::empty()),
    {
        Self::with_kind(ParseErrorKind::BenchmarkMiscount, ctx)
    }

    /// Construct a `ParseError` of kind `ParseErrorKind::DocTestMiscount`
    /// based on the current `ParseContext`.
    pub fn doc_test_miscount(ctx: &ParseContext) -> (e: Self)
        ensures
            e@ == failure_at(ParseErrorKind::DocTestMiscount, ctx, Seq::empty()),
    {
        Self::with_kind(ParseErrorKind::DocTestMiscount, ctx)
    }

    /// Construct a `ParseError` of kind `ParseErrorKind::MalformedDocTestLine`
    /// based on the current `ParseContext`.
    pub fn malformed_doc_test_line(ctx: &ParseContext) -> (e: Self)
        ensures
            e@ == failure_at(ParseErrorKind::MalformedDocTestLine, ctx, Seq::empty()),
    {
        Self::with_kind(ParseErrorKind::MalformedDocTestLine, ctx)
    }

    /// Construct a `ParseError` of kind `ParseErrorKind::SectionOverrun`
    /// based on the current `ParseContext`.
    pub fn section_overrun(ctx: &ParseContext) -> (e: Self)
        ensures
            e@ == failure_at(ParseErrorKind::SectionOverrun, ctx, Seq::empty()),
    {
        Self::with_kind(ParseErrorKind::SectionOverrun, ctx)
    }
}

} // verus!

//! A cursor over the lines of a listing.
use crate::text::{lines, split_lines, texts};
use vstd::prelude::*;
use vstd::string::*;

verus! {

/// Where a cursor stands.
#[derive(Debug, Clone, Copy, PartialEq, Eq, Structural)]
pub enum LineNumber {
    /// No line has been read yet.
    NotStarted,
    /// The line with this number, counted from 1, is the current one.
    InProgress(usize),
    /// Every line has been read.
    Finished,
}

/// The lines of one listing together with the place that parsing has reached.
/// The lines are slices of the listing, which therefore has to outlive the cursor.
pub struct ParseContext<'a> {
    data: &'a str,
    lines: Vec<&'a str>,
    current_line_number: LineNumber,
}

impl<'a> ParseContext<'a> {
    #[verifier::type_invariant]
    spec fn well_formed(&self) -> bool {
        &&& texts(self.lines@) == split_lines(self.data.spec_bytes())
        &&& match self.current_line_number {
            LineNumber::InProgress(k) => 1 <= k <= self.lines@.len(),
            LineNumber::NotStarted => true,
            LineNumber::Finished => self.lines@.len() > 0,
        }
    }

    /// The lines that the cursor runs over.
    pub closed spec fn text_lines(&self) -> Seq<Seq<u8>> {
        texts(self.lines@)
    }

    /// Where the cursor stands.
    pub closed spec fn progress(&self) -> LineNumber {
        self.current_line_number
    }

    /// The index, counted from 0, of the line that `next` would hand out.
    pub open spec fn upcoming(&self) -> Option<int> {
        match self.progress() {
            LineNumber::NotStarted => if self.text_lines().len() > 0 {
                Some(0)
            } else {
                None
            },
            LineNumber::InProgress(k) => if k < self.text_lines().len() {
                Some(k as int)
            } else {
                None
            },
            LineNumber::Finished => None,
        }
    }

    /// The number of lines that `next` has handed out or passed: the index,
    /// counted from 0, of the line that it would hand out, and the number of
    /// lines where it would hand out none.
    pub open spec fn position(&self) -> int {
        match self.upcoming() {
            Some(i) => i,
            None => self.text_lines().len() as int,
        }
    }

    /// The number of the current line, and 0 where there is none.
    pub open spec fn line_number_or_zero(&self) -> usize {
        match self.progress() {
            LineNumber::InProgress(k) => k,
            _ => 0,
        }
    }

    /// The text of the current line, and the empty text where there is none.
    pub open spec fn line_or_empty(&self) -> Seq<u8> {
        match self.progress() {
            LineNumber::InProgress(k) => self.text_lines()[k - 1],
            _ => Seq::empty(),
        }
    }

    /// A cursor over the lines of `data`, standing before the first of them.
    pub fn new(data: &'a str) -> (ctx: Self)
        ensures
            ctx.text_lines() == split_lines(data.spec_bytes()),
            ctx.progress() == LineNumber::NotStarted,
    {
        Self { data, lines: lines(data), current_line_number: LineNumber::NotStarted }
    }

    /// Returns the current line number.
    pub fn current_line_number(&self) -> (n: Option<usize>)
        ensures
            n == match self.progress() {
                LineNumber::InProgress(k) => Some(k),
                _ => None,
            },
    {
        match self.current_line_number {
            LineNumber::NotStarted => None,
            LineNumber::InProgress(idx) => Some(idx),
            LineNumber::Finished => None,
        }
    }

    /// Returns the current line, if the cursor stands on one.
    pub fn current_line(&self) -> (line: Option<&'a str>)
        ensures
            match self.progress() {
                LineNumber::InProgress(k) => line matches Some(l) && l.spec_bytes()
                    == self.text_lines()[k - 1],
                _ => line is None,
            },
    {
        proof {
            use_type_invariant(self);
        }
        match self.current_line_number {
            LineNumber::NotStarted => None,
            LineNumber::InProgress(idx) => Some(self.lines[idx - 1]),
            LineNumber::Finished => None,
        }
    }

    /// Moves the cursor back by one line. From the first line it goes back to
    /// where it stood before any line was read; a cursor that has not started
    /// or has finished stays where it is.
    pub fn prev(&mut self)
        ensures
            final(self).text_lines() == old(self).text_lines(),
            final(self).progress() == match old(self).progress() {
                LineNumber::NotStarted => LineNumber::NotStarted,
                LineNumber::InProgress(k) => if k == 1 {
                    LineNumber::NotStarted
                } else {
                    LineNumber::InProgress((k - 1) as usize)
                },
                LineNumber::Finished => LineNumber::Finished,
            },
    {
        proof {
            use_type_invariant(&*self);
        }
        let moved = match self.current_line_number {
            LineNumber::NotStarted => LineNumber::NotStarted,
            LineNumber::InProgress(idx) => if idx == 1 {
                LineNumber::NotStarted
            } else {
                LineNumber::InProgress(idx - 1)
            },
            LineNumber::Finished => LineNumber::Finished,
        };
        self.current_line_number = moved;
    }

    /// Peeks at the next line without moving the cursor.
    pub fn peek(&mut self) -> (line: Option<&'a str>)
        ensures
            *final(self) == *old(self),
            match old(self).upcoming() {
                Some(i) => line matches Some(l) && l.spec_bytes() == old(self).text_lines()[i],
                None => line is None,
            },
    {
        proof {
            use_type_invariant(&*self);
        }
        if self.lines.len() == 0 {
            return None;
        }
        match self.current_line_number {
            LineNumber::NotStarted => Some(self.lines[0]),
            LineNumber::InProgress(idx) => if idx == self.lines.len() {
                None
            } else {
                Some(self.lines[idx])
            },
            LineNumber::Finished => None,
        }
    }

    /// Returns the next line and makes it the current one. After the last
    /// line it returns `None` and the cursor has finished.
    pub fn next(&mut self) -> (line: Option<&'a str>)
        ensures
            final(self).text_lines() == old(self).text_lines(),
            0 <= old(self).position() <= old(self).text_lines().len(),
            match line {
                Some(l) => {
                    &&& old(self).position() < old(self).text_lines().len()
                    &&& l.spec_bytes() == old(self).text_lines()[old(self).position()]
                    &&& final(self).position() == old(self).position() + 1
                    &&& final(self).progress() == LineNumber::InProgress(
                        (old(self).position() + 1) as usize,
                    )
                    &&& final(self).line_number_or_zero() == old(self).position() + 1
                    &&& final(self).line_or_empty() == l.spec_bytes()
                },
                None => {
                    &&& old(self).position() == old(self).text_lines().len()
                    &&& final(self).position() == old(self).position()
                    &&& final(self).progress() == (if old(self).progress() is InProgress {
                        LineNumber::Finished
                    } else {
                        old(self).progress()
                    })
                },
            },
    {
        proof {
            use_type_invariant(&*self);
        }
        if self.lines.len() == 0 {
            return None;
        }
        match self.current_line_number {
            LineNumber::NotStarted => {
                self.current_line_number = LineNumber::InProgress(1);
                Some(self.lines[0])
            },
            LineNumber::InProgress(idx) => if idx == self.lines.len() {
                self.current_line_number = LineNumber::Finished;
                None
            } else {
                self.current_line_number = LineNumber::InProgress(idx + 1);
                Some(self.lines[idx])
            },
            LineNumber::Finished => None,
        }
    }
}

} // verus!

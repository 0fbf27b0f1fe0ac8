//! Errors encountered while parsing or assembling an IL4IL module.
use vstd::prelude::*;
use std::ops::Range;
use crate::assembly::lexer::spec_location;
use crate::assembly::lexer::LineView;
use crate::assembly::lexer::Offsets;
use crate::assembly::location::Location;

verus! {

/// An error, in specifications: the lines and columns where it starts and ends, and its message.
pub struct ErrorView {
    pub start: (nat, nat),
    pub end: (nat, nat),
    pub message: Seq<char>,
}

/// The error with the given message that spans the given byte offsets of a text with the given lines.
pub open spec fn spec_error_at(lines: Seq<LineView>, start: nat, end: nat, message: Seq<char>) -> ErrorView {
    ErrorView { start: spec_location(lines, start), end: spec_location(lines, end), message }
}

/// The text of an error: the line and column where it starts, a dash, and its message.
pub open spec fn spec_error_text(e: ErrorView) -> Seq<char> {
    crate::text::spec_decimal(e.start.0) + seq![':'] + crate::text::spec_decimal(e.start.1) + " - "@ + e.message
}

/// The views of errors.
pub open spec fn spec_error_views(errors: Seq<Error>) -> Seq<ErrorView> {
    errors.map_values(|e: Error| e@)
}

/// Represents an error encountered while parsing or assembling an IL4IL module.
#[derive(Debug)]
pub struct Error {
    location: Range<Location>,
    message: String,
}

impl View for Error {
    type V = ErrorView;

    closed spec fn view(&self) -> ErrorView {
        ErrorView {
            start: (self.location.start.line@, self.location.start.column@),
            end: (self.location.end.line@, self.location.end.column@),
            message: self.message@,
        }
    }
}

impl Error {
    /// Creates an error with the given message that spans the given locations.
    pub fn new(location: Range<Location>, message: String) -> (r: Self)
        ensures
            r@ == (ErrorView {
                start: (location.start.line@, location.start.column@),
                end: (location.end.line@, location.end.column@),
                message: message@,
            }),
    {
        Error { location, message }
    }

    /// Creates an error with the given message that spans the given byte offsets.
    pub fn at(offsets: &Offsets, byte_offsets: Range<usize>, message: String) -> (r: Self)
        requires
            byte_offsets.start < usize::MAX,
            byte_offsets.end < usize::MAX,
        ensures
            r@ == spec_error_at(offsets@.lines, byte_offsets.start as nat, byte_offsets.end as nat, message@),
    {
        Error { location: offsets.get_location_range(byte_offsets), message }
    }

    /// The locations where the error starts and ends.
    pub fn location(&self) -> (r: &Range<Location>)
        ensures
            (r.start.line@, r.start.column@) == self@.start,
            (r.end.line@, r.end.column@) == self@.end,
    {
        &self.location
    }

    /// The message of the error.
    pub fn format_message(&self) -> (r: String)
        ensures
            r@ == self@.message,
    {
        self.message.clone()
    }

    /// The text of the error: the line and column where it starts, a dash, and its message.
    pub fn to_text(&self) -> (r: String)
        ensures
            r@ == spec_error_text(self@),
    {
        let mut r = self.location.start.to_text();
        crate::text::push_str(&mut r, " - ");
        crate::text::push_str(&mut r, self.message.as_str());
        r
    }
}

} // verus!

//! Module for manipulation of locations in the source code.
use vstd::prelude::*;

verus! {

/// Represents a line or column number, which starts at one.
#[derive(Clone, Copy, Debug, PartialEq, Eq, Structural, Hash)]
pub struct Number {
    value: usize,
}

impl View for Number {
    type V = nat;

    closed spec fn view(&self) -> nat {
        self.value as nat
    }
}

impl Number {
    #[verifier::type_invariant]
    spec fn nonzero(&self) -> bool {
        self.value > 0
    }

    /// The number one, which is the first line or column.
    pub fn start() -> (r: Self)
        ensures
            r@ == 1,
    {
        Number { value: 1 }
    }

    /// Creates a number, returning `None` for zero.
    pub fn new(number: usize) -> (r: Option<Self>)
        ensures
            number > 0 ==> (r matches Some(n) && n@ == number),
            number == 0 ==> r is None,
    {
        if number == 0 {
            None
        } else {
            Some(Number { value: number })
        }
    }

    /// The number itself, which is at least one.
    pub fn get(self) -> (r: usize)
        ensures
            r == self@,
            r > 0,
    {
        proof {
            use_type_invariant(&self);
        }
        self.value
    }

    /// Adds one to the number.
    pub fn increment(&mut self)
        requires
            old(self)@ < usize::MAX,
        ensures
            final(self)@ == old(self)@ + 1,
    {
        self.value = self.value + 1;
    }

    /// The decimal text of the number.
    pub fn to_text(&self) -> (r: String)
        ensures
            r@ == crate::text::spec_decimal(self@),
    {
        crate::text::decimal_string(self.value as u64)
    }
}

/// A line and column number in the source code.
#[derive(Clone, Copy, Debug, PartialEq, Eq, Structural, Hash)]
pub struct Location {
    pub line: Number,
    pub column: Number,
}

impl Location {
    /// Creates a location from its line and column numbers.
    pub fn new(line: Number, column: Number) -> (r: Self)
        ensures
            r.line == line,
            r.column == column,
    {
        Self { line, column }
    }

    /// Whether this location comes before the other one, comparing lines first and then columns.
    pub fn is_before(&self, other: &Location) -> (r: bool)
        ensures
            r == (self.line@ < other.line@ || (self.line@ == other.line@ && self.column@ < other.column@)),
    {
        self.line.value < other.line.value || (self.line.value == other.line.value && self.column.value
            < other.column.value)
    }

    /// The textual representation of the location, `line:column`.
    pub fn to_text(&self) -> (r: String)
        ensures
            r@ == crate::text::spec_decimal(self.line@) + seq![':'] + crate::text::spec_decimal(self.column@),
    {
        let mut r = self.line.to_text();
        crate::text::push_char(&mut r, ':');
        crate::text::push_decimal(&mut r, self.column.value as u64);
        r
    }
}

} // verus!

//! Contains types decribing errors that occur during IL4IL module validation.
use vstd::prelude::*;
use crate::index;
use crate::instruction::Instruction;
use crate::instruction::Value;
use crate::instruction::spec_instruction_text;
use crate::symbol::spec_duplicate_kind_text;
use crate::symbol::spec_target_text;
use crate::text::debug_text;
use crate::text::spec_decimal;

verus! {

/// The kinds of content within a module that an index can refer to.
#[derive(Clone, Copy, Debug, PartialEq, Eq, Structural)]
pub enum IndexKind {
    Type,
    FunctionSignature,
    FunctionBody,
    FunctionTemplate,
}

impl IndexKind {
    /// The name of the kind of content.
    pub fn name(&self) -> (r: &'static str)
        ensures
            r@ == match self {
                IndexKind::Type => "type"@,
                IndexKind::FunctionSignature => "function signature"@,
                IndexKind::FunctionBody => "function body"@,
                IndexKind::FunctionTemplate => "function template"@,
            },
    {
        match self {
            IndexKind::Type => "type",
            IndexKind::FunctionSignature => "function signature",
            IndexKind::FunctionBody => "function body",
            IndexKind::FunctionTemplate => "function template",
        }
    }
}

/// The error type used when an index to content within a module is invalid.
#[derive(Clone, Copy, Debug, PartialEq, Eq, Structural)]
pub struct InvalidIndexError {
    /// The kind of content that the index refers to.
    pub kind: IndexKind,
    /// The index that is out of bounds.
    pub index: usize,
    /// The largest valid index, or `None` when there is no content of that kind.
    pub maximum: Option<usize>,
}

/// The error for an index that is not below the number of items of its kind.
pub open spec fn spec_invalid_index(kind: IndexKind, index: usize, count: nat) -> InvalidIndexError {
    InvalidIndexError { kind, index, maximum: if count == 0 { None } else { Some((count - 1) as usize) } }
}

impl InvalidIndexError {
    /// Creates the error for an index that is not below the number of items of its kind.
    pub fn new(kind: IndexKind, index: usize, count: usize) -> (r: Self)
        ensures
            r == spec_invalid_index(kind, index, count as nat),
    {
        InvalidIndexError { kind, index, maximum: if count == 0 { None } else { Some(count - 1) } }
    }
}

/// The error type used when a value does not have the type that it is expected to have.
#[derive(Clone, Copy, Debug, PartialEq, Eq)]
pub struct InvalidValueError {
    pub value: Value,
}

impl InvalidValueError {
    /// The message describing this error: the value, as [`std::fmt::Debug`] writes it.
    pub fn message(&self) -> (r: String)
        ensures
            r@ == crate::instruction::value::spec_value_text(self.value) + " is invalid"@,
    {
        let mut r = String::new();
        self.value.push_text(&mut r);
        crate::text::push_str(&mut r, " is invalid");
        assert(r@ =~= crate::instruction::value::spec_value_text(self.value) + " is invalid"@);
        r
    }
}

/// A list specifying the different ways in which an IL4IL instruction is considered invalid.
///
/// Used with the [`InvalidInstructionError`] type.
#[derive(Clone, Copy, Debug, PartialEq, Eq)]
pub enum InvalidInstructionKind {
    /// A block does not end with a terminator instruction.
    ExpectedTerminator,
    /// An instruction comes after the first terminator instruction of a block.
    ExpectedTerminatorAsLastInstruction,
    /// A `ret` instruction does not return as many values as the function has results.
    ResultCountMismatch { expected: usize, actual: usize },
    /// A returned value does not have the type of the corresponding result.
    InvalidValue(InvalidValueError),
    /// A result type of the function body refers to a type that does not exist.
    InvalidResultType(InvalidIndexError),
}

/// Indicates the location of an invalid IL4IL instruction.
#[derive(Clone, Debug, PartialEq, Eq)]
pub struct InvalidInstructionLocation {
    pub instruction: Instruction,
    pub index: usize,
}

impl InvalidInstructionLocation {
    /// Creates a location from the instruction and its position within its block.
    pub fn new(instruction: Instruction, index: usize) -> (r: Self)
        ensures
            r.instruction@ == instruction@,
            r.index == index,
    {
        Self { instruction, index }
    }
}

/// The error type used when an IL4IL instruction is invalid.
#[derive(Clone, Debug, PartialEq, Eq)]
pub struct InvalidInstructionError {
    pub block_index: index::Block,
    pub location: Option<InvalidInstructionLocation>,
    pub kind: InvalidInstructionKind,
}

impl InvalidInstructionError {
    /// Creates an error for an invalid instruction, or an invalid block when there is no location.
    pub fn new(block_index: index::Block, location: Option<InvalidInstructionLocation>, kind: InvalidInstructionKind) -> (r: Self)
        ensures
            r.block_index@ == block_index@,
            r.location == location,
            r.kind == kind,
    {
        Self { block_index, location, kind }
    }
}

/// A list specifying the kinds of errors that can occur during IL4IL module validation.
#[derive(Clone, Debug, PartialEq, Eq)]
pub enum ErrorKind {
    /// A symbol has the name or the index of an earlier symbol.
    DuplicateSymbol(crate::symbol::DuplicateSymbolError),
    /// A symbol, given by its position among all symbols, is assigned to a function template that does not exist.
    InvalidSymbolTarget { symbol: usize, error: InvalidIndexError },
    /// A function instantiation, given by its position, instantiates a function template that does not exist.
    InvalidInstantiation { instantiation: usize, error: InvalidIndexError },
    /// A function body, given by its position, holds an invalid block.
    InvalidInstruction { body: usize, error: InvalidInstructionError },
    /// A function definition, given by its position, refers to a function signature that does not exist.
    InvalidDefinitionSignature { definition: usize, error: InvalidIndexError },
    /// A function definition, given by its position, refers to a function body that does not exist.
    InvalidDefinitionBody { definition: usize, error: InvalidIndexError },
    /// More than one entry point function is specified.
    TooManyEntryPoints(usize),
}

/// Represents an error that occured during the validation of an IL4IL module.
#[derive(Clone, Debug, PartialEq, Eq)]
pub struct Error {
    pub kind: ErrorKind,
}

impl Error {
    /// Creates an error of the given kind.
    pub fn from_kind(kind: ErrorKind) -> (r: Self)
        ensures
            r.kind == kind,
    {
        Error { kind }
    }

    /// The kind of the error.
    pub fn kind(&self) -> (r: &ErrorKind)
        ensures
            *r == self.kind,
    {
        &self.kind
    }
}


/// The name of a kind of content.
pub open spec fn spec_index_kind_name(kind: IndexKind) -> Seq<char> {
    match kind {
        IndexKind::Type => "type"@,
        IndexKind::FunctionSignature => "function signature"@,
        IndexKind::FunctionBody => "function body"@,
        IndexKind::FunctionTemplate => "function template"@,
    }
}

/// The message of an invalid index: the kind and the number of the index, and the largest valid number, if any.
pub open spec fn spec_invalid_index_text(e: InvalidIndexError) -> Seq<char> {
    spec_index_kind_name(e.kind) + " index #"@ + spec_decimal(e.index as nat) + " is out of bounds"@ + match e.maximum {
        Some(m) => "maximum valid index is #"@ + spec_decimal(m as nat),
        None => Seq::empty(),
    }
}

/// The message of a way in which an instruction is invalid.
pub open spec fn spec_instruction_kind_text(kind: InvalidInstructionKind) -> Seq<char> {
    match kind {
        InvalidInstructionKind::ExpectedTerminator => "expected terminator instruction at end of block"@,
        InvalidInstructionKind::ExpectedTerminatorAsLastInstruction =>
            "no instructions should come after the first terminator instruction"@,
        InvalidInstructionKind::ResultCountMismatch { expected, actual } => "expected "@ + spec_decimal(
            expected as nat,
        ) + " return values, but got "@ + spec_decimal(actual as nat),
        InvalidInstructionKind::InvalidValue(_) => "return values are invalid"@,
        InvalidInstructionKind::InvalidResultType(_) => "result types are invalid"@,
    }
}

/// The text of the location of an invalid instruction: the instruction as [`std::fmt::Debug`] writes it, and its index.
pub open spec fn spec_location_text(l: InvalidInstructionLocation) -> Seq<char> {
    "instruction \""@ + spec_instruction_text(l.instruction@) + "\" at index "@ + spec_decimal(l.index as nat)
}

/// The message of an invalid instruction: where it is, and how it is invalid.
pub open spec fn spec_invalid_instruction_text(e: InvalidInstructionError) -> Seq<char> {
    "invalid "@ + match e.location {
        Some(l) => spec_location_text(l) + " in "@,
        None => Seq::empty(),
    } + "code block block #"@ + spec_decimal(e.block_index@ as nat) + ": "@ + spec_instruction_kind_text(e.kind)
}

/// The message of a validation error.
pub open spec fn spec_error_kind_text(kind: ErrorKind) -> Seq<char> {
    match kind {
        ErrorKind::DuplicateSymbol(d) => "attempt to assign index "@ + spec_target_text(d.index) + " the symbol "@
            + debug_text(d.symbol@) + ", but "@ + spec_duplicate_kind_text(d.kind),
        ErrorKind::InvalidSymbolTarget { symbol, error } => "symbol entry #"@ + spec_decimal(symbol as nat)
            + " is invalid: "@ + spec_invalid_index_text(error),
        ErrorKind::InvalidInstantiation { instantiation, error } => "function instantiation #"@ + spec_decimal(
            instantiation as nat,
        ) + " has an invalid template: "@ + spec_invalid_index_text(error),
        ErrorKind::InvalidInstruction { body, error } => "function body #"@ + spec_decimal(body as nat) + ": "@
            + spec_invalid_instruction_text(error),
        ErrorKind::InvalidDefinitionSignature { definition, error } => "function definition #"@ + spec_decimal(
            definition as nat,
        ) + " has an invalid signature: "@ + spec_invalid_index_text(error),
        ErrorKind::InvalidDefinitionBody { definition, error } => "function definition #"@ + spec_decimal(
            definition as nat,
        ) + " has an invalid body: "@ + spec_invalid_index_text(error),
        ErrorKind::TooManyEntryPoints(_) => "too many entry point functions specified"@,
    }
}

impl InvalidIndexError {
    /// The message describing the error.
    pub fn message(&self) -> (r: String)
        ensures
            r@ == spec_invalid_index_text(*self),
    {
        let mut r = String::new();
        crate::text::push_str(&mut r, self.kind.name());
        crate::text::push_str(&mut r, " index #");
        crate::text::push_decimal(&mut r, self.index as u64);
        crate::text::push_str(&mut r, " is out of bounds");
        match self.maximum {
            Some(m) => {
                crate::text::push_str(&mut r, "maximum valid index is #");
                crate::text::push_decimal(&mut r, m as u64);
            },
            None => {},
        }
        assert(r@ =~= spec_invalid_index_text(*self));
        r
    }
}

impl InvalidInstructionKind {
    /// The message describing how the instruction is invalid.
    pub fn message(&self) -> (r: String)
        ensures
            r@ == spec_instruction_kind_text(*self),
    {
        let mut r = String::new();
        match self {
            InvalidInstructionKind::ExpectedTerminator => crate::text::push_str(
                &mut r,
                "expected terminator instruction at end of block",
            ),
            InvalidInstructionKind::ExpectedTerminatorAsLastInstruction => crate::text::push_str(
                &mut r,
                "no instructions should come after the first terminator instruction",
            ),
            InvalidInstructionKind::ResultCountMismatch { expected, actual } => {
                crate::text::push_str(&mut r, "expected ");
                crate::text::push_decimal(&mut r, *expected as u64);
                crate::text::push_str(&mut r, " return values, but got ");
                crate::text::push_decimal(&mut r, *actual as u64);
            },
            InvalidInstructionKind::InvalidValue(_) => crate::text::push_str(&mut r, "return values are invalid"),
            InvalidInstructionKind::InvalidResultType(_) => crate::text::push_str(&mut r, "result types are invalid"),
        }
        assert(r@ =~= spec_instruction_kind_text(*self));
        r
    }
}

impl InvalidInstructionLocation {
    /// The text of the location: the instruction and its index.
    pub fn message(&self) -> (r: String)
        ensures
            r@ == spec_location_text(*self),
    {
        let mut r = String::new();
        crate::text::push_str(&mut r, "instruction \"");
        let text = self.instruction.to_debug_text();
        crate::text::push_str(&mut r, text.as_str());
        crate::text::push_str(&mut r, "\" at index ");
        crate::text::push_decimal(&mut r, self.index as u64);
        assert(r@ =~= spec_location_text(*self));
        r
    }
}

impl InvalidInstructionError {
    /// The message describing the error: where the instruction is, and how it is invalid.
    pub fn message(&self) -> (r: String)
        ensures
            r@ == spec_invalid_instruction_text(*self),
    {
        let mut r = String::new();
        crate::text::push_str(&mut r, "invalid ");
        match &self.location {
            Some(l) => {
                let text = l.message();
                crate::text::push_str(&mut r, text.as_str());
                crate::text::push_str(&mut r, " in ");
            },
            None => {},
        }
        crate::text::push_str(&mut r, "code block block #");
        crate::text::push_decimal(&mut r, self.block_index.get() as u64);
        crate::text::push_str(&mut r, ": ");
        let kind = self.kind.message();
        crate::text::push_str(&mut r, kind.as_str());
        assert(r@ =~= spec_invalid_instruction_text(*self));
        r
    }
}

/// Appends the text of a numbered item, `#` and the number, followed by a message.
fn push_numbered(r: &mut String, prefix: &str, number: usize, middle: &str, rest: &str)
    ensures
        final(r)@ == old(r)@ + prefix@ + spec_decimal(number as nat) + middle@ + rest@,
{
    crate::text::push_str(r, prefix);
    crate::text::push_decimal(r, number as u64);
    crate::text::push_str(r, middle);
    crate::text::push_str(r, rest);
    assert(r@ =~= old(r)@ + prefix@ + spec_decimal(number as nat) + middle@ + rest@);
}

impl Error {
    /// The message describing the error: the content that is invalid, and why.
    pub fn message(&self) -> (r: String)
        ensures
            r@ == spec_error_kind_text(self.kind),
    {
        let mut r = String::new();
        match &self.kind {
            ErrorKind::DuplicateSymbol(d) => {
                let text = d.message();
                crate::text::push_str(&mut r, text.as_str());
            },
            ErrorKind::InvalidSymbolTarget { symbol, error } => {
                let text = error.message();
                push_numbered(&mut r, "symbol entry #", *symbol, " is invalid: ", text.as_str());
            },
            ErrorKind::InvalidInstantiation { instantiation, error } => {
                let text = error.message();
                push_numbered(
                    &mut r,
                    "function instantiation #",
                    *instantiation,
                    " has an invalid template: ",
                    text.as_str(),
                );
            },
            ErrorKind::InvalidInstruction { body, error } => {
                let text = error.message();
                push_numbered(&mut r, "function body #", *body, ": ", text.as_str());
            },
            ErrorKind::InvalidDefinitionSignature { definition, error } => {
                let text = error.message();
                push_numbered(&mut r, "function definition #", *definition, " has an invalid signature: ", text.as_str());
            },
            ErrorKind::InvalidDefinitionBody { definition, error } => {
                let text = error.message();
                push_numbered(&mut r, "function definition #", *definition, " has an invalid body: ", text.as_str());
            },
            ErrorKind::TooManyEntryPoints(_) => crate::text::push_str(
                &mut r,
                "too many entry point functions specified",
            ),
        }
        assert(r@ =~= spec_error_kind_text(self.kind));
        r
    }
}
} // verus!

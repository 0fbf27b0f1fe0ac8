//! Module for parsing the contents of an IL4IL module.
//!
//! Every reader is described by a specification function from the bytes that remain to either the value that was read
//! with the number of bytes it occupies, or the kind of error with the offset, from the start of those bytes, of the
//! item that could not be read.
use vstd::prelude::*;
use vstd::slice::slice_subrange;
use vstd::slice::slice_to_vec;
use crate::integer::VarU28;
use crate::integer::VarI28;
use crate::integer::spec_read_var_u28;
use crate::integer::spec_read_var_i28;
use crate::module::section::SectionKind;

verus! {

/// Error type used when a file does not start with the IL4IL module magic value.
#[derive(Clone, Copy, Debug, PartialEq, Eq, Structural)]
pub struct InvalidMagicError;

/// The kinds of bit flags or tags that are read from a module.
#[derive(Clone, Copy, Debug, PartialEq, Eq, Structural)]
pub enum FlagsKind {
    SectionKind,
    MetadataKind,
    SymbolKind,
    SymbolTarget,
}

impl FlagsKind {
    /// The name of the kind of flags.
    pub fn name(&self) -> (r: &'static str)
        ensures
            r@ == match self {
                FlagsKind::SectionKind => "section kind"@,
                FlagsKind::MetadataKind => "metadata kind"@,
                FlagsKind::SymbolKind => "symbol kind"@,
                FlagsKind::SymbolTarget => "symbol target"@,
            },
    {
        match self {
            FlagsKind::SectionKind => "section kind",
            FlagsKind::MetadataKind => "metadata kind",
            FlagsKind::SymbolKind => "symbol kind",
            FlagsKind::SymbolTarget => "symbol target",
        }
    }
}

/// Error type used when some combination of flags is invalid.
#[derive(Clone, Copy, Debug, PartialEq, Eq, Structural)]
pub struct InvalidFlagsError {
    /// The kind of flags that was expected.
    pub name: FlagsKind,
    /// The byte that was read.
    pub value: u8,
}

/// Error type used when the contents of a section do not have the length written before them.
#[derive(Clone, Copy, Debug, PartialEq, Eq, Structural)]
pub struct SectionLengthError {
    pub section: SectionKind,
    pub expected: usize,
    pub actual: usize,
}

/// Error type used when a type index is used where only an inline type is allowed.
#[derive(Clone, Copy, Debug, PartialEq, Eq, Structural)]
pub struct UnsupportedTypeError {
    /// The type index that was read.
    pub type_index: usize,
}

/// Error type indicating why parsing failed. Used with the [`Error`] type.
#[derive(Clone, Copy, Debug, PartialEq, Eq)]
pub enum ErrorKind {
    /// The file does not start with the module magic value.
    InvalidMagic(InvalidMagicError),
    /// The bytes ended before the item was complete.
    EndOfInput,
    /// The format version is not supported.
    UnsupportedFormat(crate::versioning::Format),
    /// A variable-length integer indicates a byte length that is not supported.
    UnsupportedIntegerLength(u8),
    /// A flags or tag byte is not valid.
    InvalidFlags(InvalidFlagsError),
    /// An identifier is not valid.
    InvalidIdentifier(crate::identifier::ParseError),
    /// The contents of a section do not have the indicated length.
    SectionLengthMismatch(SectionLengthError),
    /// A type tag is not valid.
    InvalidTypeTag(i32),
    /// A type index was used where an inline type was expected.
    UnsupportedTypeKind(UnsupportedTypeError),
    /// An integer type has an invalid bit width.
    InvalidIntegerBitWidth(u32),
    /// An opcode is not valid.
    InvalidOpcode(u32),
    /// The tag of a constant value is not valid.
    InvalidConstantTag(crate::instruction::value::InvalidTagError),
    /// A reserved integer is not zero.
    ReservedNotZero(u32),
    /// A value refers to a register, which is not yet supported.
    UnsupportedValue(i32),
}

/// Error type used when parsing fails.
#[derive(Clone, Copy, Debug, PartialEq, Eq)]
pub struct Error {
    pub kind: ErrorKind,
    pub file_offset: usize,
}

impl Error {
    /// The kind of error encountered during parsing.
    pub fn kind(&self) -> (r: ErrorKind)
        ensures
            r == self.kind,
    {
        self.kind
    }

    /// A file offset to the start of the item that could not be read.
    pub fn file_offset(&self) -> (r: usize)
        ensures
            r == self.file_offset,
    {
        self.file_offset
    }
}

/// The text that [`std::fmt::Debug`] writes for a section kind: the name of its variant.
pub open spec fn spec_section_kind_text(kind: SectionKind) -> Seq<char> {
    match kind {
        SectionKind::Metadata => "Metadata"@,
        SectionKind::ModuleImport => "ModuleImport"@,
        SectionKind::Symbol => "Symbol"@,
        SectionKind::Type => "Type"@,
        SectionKind::FunctionSignature => "FunctionSignature"@,
        SectionKind::FunctionInstantiation => "FunctionInstantiation"@,
        SectionKind::FunctionImport => "FunctionImport"@,
        SectionKind::FunctionDefinition => "FunctionDefinition"@,
        SectionKind::Code => "Code"@,
        SectionKind::EntryPoint => "EntryPoint"@,
    }
}

/// The name of the kind of flags.
pub open spec fn spec_flags_name(kind: FlagsKind) -> Seq<char> {
    match kind {
        FlagsKind::SectionKind => "section kind"@,
        FlagsKind::MetadataKind => "metadata kind"@,
        FlagsKind::SymbolKind => "symbol kind"@,
        FlagsKind::SymbolTarget => "symbol target"@,
    }
}

/// A number in hexadecimal with upper-case letters, after `0x`.
pub open spec fn spec_prefixed_hex(n: nat) -> Seq<char> {
    "0x"@ + crate::text::spec_hex(n)
}

/// The message of a kind of parser error.
pub open spec fn spec_error_kind_text(kind: ErrorKind) -> Seq<char> {
    match kind {
        ErrorKind::InvalidMagic(_) => "not a valid IL4IL module file"@,
        ErrorKind::EndOfInput => "failed to fill whole buffer"@,
        ErrorKind::UnsupportedFormat(f) => "format version "@ + crate::versioning::spec_format_text(f)
            + " is not supported, minimum supported is "@ + crate::versioning::spec_format_text(
            crate::versioning::spec_minimum_format(),
        ),
        ErrorKind::UnsupportedIntegerLength(length) => "integers of byte length "@ + crate::text::spec_decimal(
            length as nat,
        ) + " are not supported by IL4IL"@,
        ErrorKind::InvalidFlags(e) => spec_prefixed_hex(e.value as nat) + " is not a valid "@ + spec_flags_name(
            e.name,
        ),
        ErrorKind::InvalidIdentifier(crate::identifier::ParseError::InvalidIdentifier(e)) => match e {
            crate::identifier::InvalidError::Empty => "identifiers cannot be empty"@,
            crate::identifier::InvalidError::ContainsNull => "identifiers cannot contain null bytes"@,
        },
        ErrorKind::InvalidIdentifier(crate::identifier::ParseError::InvalidSequence) => "invalid utf-8 sequence"@,
        ErrorKind::SectionLengthMismatch(e) => "expected "@ + spec_section_kind_text(e.section)
            + " section to have a length of "@ + crate::text::spec_decimal(e.expected as nat) + " bytes, but "@
            + crate::text::spec_decimal(e.actual as nat) + " bytes were parsed"@,
        ErrorKind::InvalidTypeTag(tag) => crate::text::spec_signed_decimal(tag as int) + " is not a valid type tag"@,
        ErrorKind::UnsupportedTypeKind(e) => "unsupported type #"@ + crate::text::spec_decimal(e.type_index as nat)
            + ", type index is not allowed here"@,
        ErrorKind::InvalidIntegerBitWidth(width) => crate::text::spec_decimal(width as nat)
            + " is not a supported integer bit width"@,
        ErrorKind::InvalidOpcode(opcode) => crate::text::spec_decimal(opcode as nat) + " is not a valid opcode"@,
        ErrorKind::InvalidConstantTag(e) => crate::text::spec_signed_decimal(e.tag as int)
            + " is not a valid constant value tag"@,
        ErrorKind::ReservedNotZero(value) => "expected reserved value to be 0, but got "@ + crate::text::spec_decimal(
            value as nat,
        ),
        ErrorKind::UnsupportedValue(tag) => crate::text::spec_signed_decimal(tag as int)
            + " is not a supported value"@,
    }
}

/// Appends a message made of three parts.
fn push3(s: &mut String, a: &str, b: &str, c: &str)
    ensures
        final(s)@ == old(s)@ + a@ + b@ + c@,
{
    crate::text::push_str(s, a);
    crate::text::push_str(s, b);
    crate::text::push_str(s, c);
    assert(s@ =~= old(s)@ + a@ + b@ + c@);
}

impl ErrorKind {
    /// The message describing the kind of error.
    pub fn message(&self) -> (r: String)
        ensures
            r@ == spec_error_kind_text(*self),
    {
        let mut r = String::new();
        match self {
            ErrorKind::InvalidMagic(_) => crate::text::push_str(&mut r, "not a valid IL4IL module file"),
            ErrorKind::EndOfInput => crate::text::push_str(&mut r, "failed to fill whole buffer"),
            ErrorKind::UnsupportedFormat(f) => {
                let version = f.to_text();
                let minimum = crate::versioning::SupportedFormat::minimum().format().to_text();
                push3(&mut r, "format version ", version.as_str(), " is not supported, minimum supported is ");
                crate::text::push_str(&mut r, minimum.as_str());
            },
            ErrorKind::UnsupportedIntegerLength(length) => {
                let number = crate::text::decimal_string(*length as u64);
                push3(&mut r, "integers of byte length ", number.as_str(), " are not supported by IL4IL");
            },
            ErrorKind::InvalidFlags(e) => {
                crate::text::push_str(&mut r, "0x");
                crate::text::push_hex(&mut r, e.value as u64);
                crate::text::push_str(&mut r, " is not a valid ");
                crate::text::push_str(&mut r, e.name.name());
            },
            ErrorKind::InvalidIdentifier(crate::identifier::ParseError::InvalidIdentifier(e)) => crate::text::push_str(
                &mut r,
                e.message(),
            ),
            ErrorKind::InvalidIdentifier(crate::identifier::ParseError::InvalidSequence) => crate::text::push_str(
                &mut r,
                "invalid utf-8 sequence",
            ),
            ErrorKind::SectionLengthMismatch(e) => {
                crate::text::push_str(&mut r, "expected ");
                crate::text::push_str(&mut r, section_kind_text(e.section));
                crate::text::push_str(&mut r, " section to have a length of ");
                crate::text::push_decimal(&mut r, e.expected as u64);
                crate::text::push_str(&mut r, " bytes, but ");
                crate::text::push_decimal(&mut r, e.actual as u64);
                crate::text::push_str(&mut r, " bytes were parsed");
            },
            ErrorKind::InvalidTypeTag(tag) => {
                crate::text::push_signed_decimal(&mut r, *tag);
                crate::text::push_str(&mut r, " is not a valid type tag");
            },
            ErrorKind::UnsupportedTypeKind(e) => {
                crate::text::push_str(&mut r, "unsupported type #");
                crate::text::push_decimal(&mut r, e.type_index as u64);
                crate::text::push_str(&mut r, ", type index is not allowed here");
            },
            ErrorKind::InvalidIntegerBitWidth(width) => {
                crate::text::push_decimal(&mut r, *width as u64);
                crate::text::push_str(&mut r, " is not a supported integer bit width");
            },
            ErrorKind::InvalidOpcode(opcode) => {
                crate::text::push_decimal(&mut r, *opcode as u64);
                crate::text::push_str(&mut r, " is not a valid opcode");
            },
            ErrorKind::InvalidConstantTag(e) => {
                crate::text::push_signed_decimal(&mut r, e.tag);
                crate::text::push_str(&mut r, " is not a valid constant value tag");
            },
            ErrorKind::ReservedNotZero(value) => {
                crate::text::push_str(&mut r, "expected reserved value to be 0, but got ");
                crate::text::push_decimal(&mut r, *value as u64);
            },
            ErrorKind::UnsupportedValue(tag) => {
                crate::text::push_signed_decimal(&mut r, *tag);
                crate::text::push_str(&mut r, " is not a supported value");
            },
        }
        assert(r@ =~= spec_error_kind_text(*self));
        r
    }
}

/// The text that [`std::fmt::Debug`] writes for a section kind.
fn section_kind_text(kind: SectionKind) -> (r: &'static str)
    ensures
        r@ == spec_section_kind_text(kind),
{
    match kind {
        SectionKind::Metadata => "Metadata",
        SectionKind::ModuleImport => "ModuleImport",
        SectionKind::Symbol => "Symbol",
        SectionKind::Type => "Type",
        SectionKind::FunctionSignature => "FunctionSignature",
        SectionKind::FunctionInstantiation => "FunctionInstantiation",
        SectionKind::FunctionImport => "FunctionImport",
        SectionKind::FunctionDefinition => "FunctionDefinition",
        SectionKind::Code => "Code",
        SectionKind::EntryPoint => "EntryPoint",
    }
}

impl Error {
    /// The message describing the error: the file offset where it occurred, in hexadecimal, and what went wrong,
    /// followed by a line break.
    pub fn message(&self) -> (r: String)
        ensures
            r@ == "error occurred at file offset "@ + spec_prefixed_hex(self.file_offset as nat) + ": "@
                + spec_error_kind_text(self.kind) + seq!['\n'],
    {
        let mut r = String::new();
        crate::text::push_str(&mut r, "error occurred at file offset 0x");
        crate::text::push_hex(&mut r, self.file_offset as u64);
        crate::text::push_str(&mut r, ": ");
        let kind = self.kind.message();
        crate::text::push_str(&mut r, kind.as_str());
        crate::text::push_char(&mut r, '\n');
        proof {
            reveal_strlit("error occurred at file offset 0x");
            reveal_strlit("error occurred at file offset ");
            reveal_strlit("0x");
        }
        assert(r@ =~= "error occurred at file offset "@ + spec_prefixed_hex(self.file_offset as nat) + ": "@
            + spec_error_kind_text(self.kind) + seq!['\n']);
        r
    }
}

/// What reading from some bytes gives: the value with the number of bytes that it occupies, or the kind of error with
/// the offset of the item that could not be read.
pub type Parsed<V> = Result<(V, nat), (ErrorKind, nat)>;

/// Whether the offsets in an outcome stay within the bytes that were read.
pub open spec fn spec_parsed_within<V>(p: Parsed<V>, len: nat) -> bool {
    match p {
        Ok((_, n)) => n <= len,
        Err((_, o)) => o <= len,
    }
}

/// Reads `b` after `a` has been read, with `a` having consumed `n` bytes.
pub open spec fn spec_shift<V>(p: Parsed<V>, n: nat) -> Parsed<V> {
    match p {
        Ok((v, m)) => Ok((v, n + m)),
        Err((k, o)) => Err((k, n + o)),
    }
}

/// Reading an unsigned variable-length integer.
pub open spec fn spec_parse_var_u28(s: Seq<u8>) -> Parsed<u32> {
    match spec_read_var_u28(s) {
        Ok(Ok((v, n))) => Ok((v, n)),
        Ok(Err(l)) => Err((ErrorKind::UnsupportedIntegerLength(l), 0)),
        Err(_) => Err((ErrorKind::EndOfInput, 0)),
    }
}

/// Reading a signed variable-length integer, as its 32-bit two's complement representation.
pub open spec fn spec_parse_var_i28(s: Seq<u8>) -> Parsed<u32> {
    match spec_read_var_i28(s) {
        Ok(Ok((v, n))) => Ok((v, n)),
        Ok(Err(l)) => Err((ErrorKind::UnsupportedIntegerLength(l), 0)),
        Err(_) => Err((ErrorKind::EndOfInput, 0)),
    }
}

/// Reading a length or index.
pub open spec fn spec_parse_length(s: Seq<u8>) -> Parsed<nat> {
    match spec_parse_var_u28(s) {
        Ok((v, n)) => Ok((v as nat, n)),
        Err(e) => Err(e),
    }
}

/// Reading a reserved integer, which must be zero.
pub open spec fn spec_parse_reserved(s: Seq<u8>) -> Parsed<()> {
    match spec_parse_var_u28(s) {
        Ok((v, n)) => if v == 0 {
            Ok(((), n))
        } else {
            Err((ErrorKind::ReservedNotZero(v), 0))
        },
        Err(e) => Err(e),
    }
}

/// Reading exactly `count` bytes.
pub open spec fn spec_parse_bytes(s: Seq<u8>, count: nat) -> Parsed<Seq<u8>> {
    if s.len() < count {
        Err((ErrorKind::EndOfInput, 0))
    } else {
        Ok((s.take(count as int), count))
    }
}

/// Provides a sequence of bytes, keeping track of the offset of the next byte to read.
pub struct Source<'a> {
    bytes: &'a [u8],
    file_offset: usize,
}

impl<'a> Source<'a> {
    #[verifier::type_invariant]
    spec fn within(&self) -> bool {
        self.file_offset <= self.bytes@.len()
    }

    /// All of the bytes, in specifications.
    pub closed spec fn spec_bytes(&self) -> Seq<u8> {
        self.bytes@
    }

    /// The offset of the next byte to read, in specifications.
    pub closed spec fn spec_offset(&self) -> nat {
        self.file_offset as nat
    }

    /// The bytes that remain to be read.
    pub open spec fn rest(&self) -> Seq<u8> {
        self.spec_bytes().skip(self.spec_offset() as int)
    }

    /// The offset of the next byte to read never passes the end of the bytes.
    pub fn check_offset(&self)
        ensures
            self.spec_offset() <= self.spec_bytes().len(),
            self.rest().len() == self.spec_bytes().len() - self.spec_offset(),
    {
        proof {
            use_type_invariant(self);
        }
    }

    /// Creates a [`Source`] that reads the bytes from the start.
    pub fn new(bytes: &'a [u8]) -> (r: Self)
        ensures
            r.spec_bytes() == bytes@,
            r.spec_offset() == 0,
    {
        Source { bytes, file_offset: 0 }
    }

    /// The file offset of the byte that will be read next.
    pub fn file_offset(&self) -> (r: usize)
        ensures
            r == self.spec_offset(),
    {
        self.file_offset
    }

    /// Creates an [`Error`] at the current file offset.
    pub fn create_error(&self, kind: ErrorKind) -> (r: Error)
        ensures
            r.kind == kind,
            r.file_offset == self.spec_offset(),
    {
        Error { kind, file_offset: self.file_offset }
    }

    /// Creates an [`Error`] at an offset from the current file offset.
    fn error_at(&self, kind: ErrorKind, offset: usize) -> (r: Error)
        requires
            self.spec_offset() + offset <= self.spec_bytes().len(),
        ensures
            r.kind == kind,
            r.file_offset == self.spec_offset() + offset,
    {
        let length = self.bytes.len();
        assert(self.file_offset + offset <= length);
        Error { kind, file_offset: self.file_offset + offset }
    }

    /// The bytes that remain to be read.
    fn remaining(&self) -> (r: &'a [u8])
        ensures
            r@ == self.rest(),
    {
        proof {
            use_type_invariant(self);
        }
        slice_subrange(self.bytes, self.file_offset, self.bytes.len())
    }

    /// Moves past `count` bytes.
    fn advance(&mut self, count: usize)
        requires
            old(self).spec_offset() + count <= old(self).spec_bytes().len(),
        ensures
            final(self).spec_bytes() == old(self).spec_bytes(),
            final(self).spec_offset() == old(self).spec_offset() + count,
    {
        let length = self.bytes.len();
        assert(self.file_offset + count <= length);
        self.file_offset = self.file_offset + count;
    }

    /// Reads exactly `count` bytes.
    pub fn read_bytes(&mut self, count: usize) -> (r: Result<Vec<u8>, Error>)
        ensures
            spec_read_outcome(*old(self), *final(self), spec_parse_bytes(old(self).rest(), count as nat), r),
    {
        proof {
            use_type_invariant(&*self);
        }
        let rest = self.remaining();
        if rest.len() < count {
            return Err(self.create_error(ErrorKind::EndOfInput));
        }
        let bytes = slice_to_vec(slice_subrange(rest, 0, count));
        self.advance(count);
        assert(bytes@ =~= old(self).rest().take(count as int));
        Ok(bytes)
    }

    /// Reads an unsigned variable-length integer.
    pub fn read_var_u28(&mut self) -> (r: Result<VarU28, Error>)
        ensures
            spec_read_outcome(*old(self), *final(self), spec_parse_var_u28(old(self).rest()), r),
    {
        proof {
            use_type_invariant(&*self);
        }
        let rest = self.remaining();
        match VarU28::read_from(rest) {
            Ok(Ok((value, length))) => {
                self.advance(length);
                Ok(value)
            },
            Ok(Err(error)) => Err(self.create_error(ErrorKind::UnsupportedIntegerLength(error.length()))),
            Err(_) => Err(self.create_error(ErrorKind::EndOfInput)),
        }
    }

    /// Reads a signed variable-length integer.
    pub fn read_var_i28(&mut self) -> (r: Result<VarI28, Error>)
        ensures
            spec_read_outcome(*old(self), *final(self), spec_parse_var_i28(old(self).rest()), r),
    {
        proof {
            use_type_invariant(&*self);
        }
        let rest = self.remaining();
        match VarI28::read_from(rest) {
            Ok(Ok((value, length))) => {
                self.advance(length);
                Ok(value)
            },
            Ok(Err(error)) => Err(self.create_error(ErrorKind::UnsupportedIntegerLength(error.length()))),
            Err(_) => Err(self.create_error(ErrorKind::EndOfInput)),
        }
    }
}

/// Whether a reader that went from `before` to `after` and returned `r` did what the outcome `p` describes.
pub open spec fn spec_read_outcome<T: View>(before: Source, after: Source, p: Parsed<T::V>, r: Result<T, Error>) -> bool {
    &&& after.spec_bytes() == before.spec_bytes()
    &&& match p {
        Ok((v, n)) => r matches Ok(x) && x@ == v && after.spec_offset() == before.spec_offset() + n,
        Err((k, o)) => r matches Err(e) && e.kind == k && e.file_offset == before.spec_offset() + o,
    }
}

/// The views of a sequence of values.
pub open spec fn spec_views<T: View>(items: Seq<T>) -> Seq<T::V> {
    items.map_values(|x: T| x@)
}

/// Whether a reader of many values that went from `before` to `after` and returned `r` did what `p` describes.
pub open spec fn spec_read_many_outcome<T: View>(
    before: Source,
    after: Source,
    p: Parsed<Seq<T::V>>,
    r: Result<Vec<T>, Error>,
) -> bool {
    &&& after.spec_bytes() == before.spec_bytes()
    &&& match p {
        Ok((vs, n)) => r matches Ok(x) && spec_views(x@) == vs && after.spec_offset() == before.spec_offset() + n,
        Err((k, o)) => r matches Err(e) && e.kind == k && e.file_offset == before.spec_offset() + o,
    }
}

/// A trait for parsing data from a sequence of bytes.
pub trait ReadFrom: Sized + View {
    /// What reading from the start of `s` gives.
    spec fn spec_read(s: Seq<u8>) -> Parsed<Self::V>;

    /// Reads data from a source.
    #[verifier::spinoff_prover]
    fn read_from(source: &mut Source) -> (r: Result<Self, Error>)
        ensures
            spec_read_outcome(*old(source), *final(source), Self::spec_read(old(source).rest()), r),
    ;
}

/// Reading `count` values one after the other.
pub open spec fn spec_read_many<T: ReadFrom>(s: Seq<u8>, count: nat) -> Parsed<Seq<T::V>>
    decreases count,
{
    if count == 0 {
        Ok((Seq::empty(), 0))
    } else {
        match spec_read_many::<T>(s, (count - 1) as nat) {
            Ok((vs, n)) => match T::spec_read(s.skip(n as int)) {
                Ok((v, m)) => Ok((vs.push(v), n + m)),
                Err((k, o)) => Err((k, n + o)),
            },
            Err(e) => Err(e),
        }
    }
}

/// Reading a length followed by that many values.
pub open spec fn spec_read_prefixed<T: ReadFrom>(s: Seq<u8>) -> Parsed<Seq<T::V>> {
    match spec_parse_length(s) {
        Ok((count, n)) => spec_shift(spec_read_many::<T>(s.skip(n as int), count), n),
        Err(e) => Err(e),
    }
}

/// Skipping `n` bytes of what remains after skipping `a` bytes is skipping `a + n` bytes.
pub proof fn lemma_skip_skip(s: Seq<u8>, a: int, n: int)
    requires
        0 <= a,
        0 <= n,
        a + n <= s.len(),
    ensures
        s.skip(a).skip(n) == s.skip(a + n),
{
    assert(s.skip(a).skip(n) =~= s.skip(a + n));
}

/// Once reading some of the values fails, reading more of them fails in the same way.
pub proof fn lemma_read_many_err<T: ReadFrom>(s: Seq<u8>, i: nat, count: nat)
    requires
        i <= count,
        spec_read_many::<T>(s, i) is Err,
    ensures
        spec_read_many::<T>(s, count) == spec_read_many::<T>(s, i),
    decreases count - i,
{
    if i < count {
        lemma_read_many_err::<T>(s, i, (count - 1) as nat);
    }
}

/// Reads a contiguous sequence of `count` values from a source.
pub fn read_many<T: ReadFrom>(source: &mut Source, count: usize) -> (r: Result<Vec<T>, Error>)
    ensures
        spec_read_many_outcome(*old(source), *final(source), spec_read_many::<T>(old(source).rest(), count as nat), r),
        r matches Ok(x) ==> x@.len() == count,
{
    let mut data: Vec<T> = Vec::new();
    let mut i: usize = 0;
    source.check_offset();
    while i < count
        invariant
            i <= count,
            data@.len() == i,
            source.spec_bytes() == old(source).spec_bytes(),
            old(source).spec_offset() <= old(source).spec_bytes().len(),
            spec_read_many::<T>(old(source).rest(), i as nat) matches Ok((vs, n)) && spec_views(data@) == vs
                && source.spec_offset() == old(source).spec_offset() + n,
        decreases count - i,
    {
        source.check_offset();
        let ghost n = (source.spec_offset() - old(source).spec_offset()) as nat;
        proof {
            lemma_skip_skip(old(source).spec_bytes(), old(source).spec_offset() as int, n as int);
        }
        let item = T::read_from(source);
        match item {
            Ok(value) => {
                let ghost before = data@;
                data.push(value);
                assert(spec_views(data@) =~= spec_views(before).push(value@));
            },
            Err(error) => {
                proof {
                    lemma_read_many_err::<T>(old(source).rest(), (i + 1) as nat, count as nat);
                }
                return Err(error);
            },
        }
        i = i + 1;
    }
    Ok(data)
}

/// Reads a length or index.
pub fn parse_length(source: &mut Source) -> (r: Result<usize, Error>)
    ensures
        final(source).spec_bytes() == old(source).spec_bytes(),
        match spec_parse_length(old(source).rest()) {
            Ok((v, n)) => r == Ok::<usize, Error>(v as usize) && v < 0x1000_0000 && final(source).spec_offset()
                == old(source).spec_offset() + n,
            Err((k, o)) => r matches Err(e) && e.kind == k && e.file_offset == old(source).spec_offset() + o,
        },
{
    match source.read_var_u28() {
        Ok(value) => {
            let length = value.get();
            Ok(length as usize)
        },
        Err(e) => Err(e),
    }
}

/// Reads a length followed by that many values.
pub fn parse_many_length_encoded<T: ReadFrom>(source: &mut Source) -> (r: Result<Vec<T>, Error>)
    ensures
        spec_read_many_outcome(*old(source), *final(source), spec_read_prefixed::<T>(old(source).rest()), r),
{
    source.check_offset();
    let count = parse_length(source)?;
    let ghost n = (source.spec_offset() - old(source).spec_offset()) as nat;
    source.check_offset();
    proof {
        lemma_skip_skip(old(source).spec_bytes(), old(source).spec_offset() as int, n as int);
    }
    read_many(source, count)
}

/// Reads a reserved integer, which must be zero.
pub fn parse_reserved(source: &mut Source) -> (r: Result<(), Error>)
    ensures
        spec_read_outcome(*old(source), *final(source), spec_parse_reserved(old(source).rest()), r),
{
    let start = source.file_offset();
    let value = source.read_var_u28()?;
    if value.get() == 0 {
        Ok(())
    } else {
        Err(Error { kind: ErrorKind::ReservedNotZero(value.get()), file_offset: start })
    }
}

impl ReadFrom for u8 {
    open spec fn spec_read(s: Seq<u8>) -> Parsed<u8> {
        if s.len() == 0 {
            Err((ErrorKind::EndOfInput, 0))
        } else {
            Ok((s[0], 1))
        }
    }

    #[verifier::spinoff_prover]
    fn read_from(source: &mut Source) -> (r: Result<u8, Error>) {
        let bytes = source.read_bytes(1)?;
        Ok(bytes[0])
    }
}

/// After a source has moved forward, what remains of it is what remained before, without the bytes that were read.
pub proof fn lemma_advanced(before: Source, after: Source)
    requires
        after.spec_bytes() == before.spec_bytes(),
        before.spec_offset() <= after.spec_offset() <= after.spec_bytes().len(),
    ensures
        after.rest() == before.rest().skip(after.spec_offset() - before.spec_offset()),
{
    lemma_skip_skip(
        before.spec_bytes(),
        before.spec_offset() as int,
        after.spec_offset() - before.spec_offset(),
    );
}

} // verus!

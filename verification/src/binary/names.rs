//! Reading and writing of identifiers, module names, metadata, and symbol assignments.
use vstd::prelude::*;
use vstd::utf8::encode_utf8;
use crate::binary::RoundTrip;
use crate::binary::lemma_parse_length_round_trip;
use crate::binary::spec_length_bytes;
use crate::binary::spec_then;
use crate::binary::parser::Error;
use crate::binary::parser::ErrorKind;
use crate::binary::parser::FlagsKind;
use crate::binary::parser::InvalidFlagsError;
use crate::binary::parser::Parsed;
use crate::binary::parser::ReadFrom;
use crate::binary::parser::Source;
use crate::binary::parser::lemma_advanced;
use crate::binary::parser::parse_length;
use crate::binary::parser::parse_reserved;
use crate::binary::parser::spec_parse_bytes;
use crate::binary::parser::spec_parse_length;
use crate::binary::parser::spec_parse_reserved;
use crate::binary::writer::Destination;
use crate::binary::writer::WriteTo;
use crate::binary::writer::lemma_prefix_concat;
use crate::binary::writer::write_length;
use crate::identifier::Identifier;
use crate::identifier::spec_from_utf8;
use crate::identifier::spec_is_identifier;
use crate::integer::EncodingError;
use crate::integer::VarU28;
use crate::integer::spec_encode_var_u28;
use crate::module::ModuleName;
use crate::module::section::Metadata;
use crate::module::section::MetadataKind;
use crate::module::section::MetadataView;
use crate::module::section::spec_metadata_kind_byte;
use crate::symbol::Assignment;
use crate::symbol::AssignmentView;
use crate::symbol::Kind;
use crate::symbol::TargetKind;
use crate::symbol::spec_kind_byte;
use crate::symbol::spec_target_kind_byte;
use crate::binary::spec_all_round_trip;
use crate::binary::lemma_prefixed_round_trip;
use crate::binary::parser::spec_read_outcome;
use crate::binary::parser::spec_read_prefixed;
use crate::binary::parser::parse_many_length_encoded;
use crate::binary::writer::LengthPrefixed;
use crate::binary::writer::spec_write_prefixed;

verus! {

/// Reading an identifier: the number of bytes of its UTF-8 encoding, followed by those bytes.
pub open spec fn spec_read_identifier(s: Seq<u8>) -> Parsed<Seq<char>> {
    match spec_parse_length(s) {
        Err(e) => Err(e),
        Ok((count, n)) => match spec_parse_bytes(s.skip(n as int), count) {
            Err((k, o)) => Err((k, n + o)),
            Ok((bytes, m)) => match spec_from_utf8(bytes) {
                Ok(chars) => Ok((chars, n + m)),
                Err(e) => Err((ErrorKind::InvalidIdentifier(e), 0)),
            },
        },
    }
}

/// The bytes written for an identifier.
pub open spec fn spec_write_identifier(chars: Seq<char>) -> Option<Seq<u8>> {
    spec_then(spec_length_bytes(encode_utf8(chars).len()), Some(encode_utf8(chars)))
}

impl ReadFrom for Identifier {
    open spec fn spec_read(s: Seq<u8>) -> Parsed<Seq<char>> {
        spec_read_identifier(s)
    }

    #[verifier::spinoff_prover]
    fn read_from(source: &mut Source) -> (r: Result<Identifier, Error>) {
        let start = source.file_offset();
        let count = parse_length(source)?;
        source.check_offset();
        proof {
            lemma_advanced(*old(source), *source);
        }
        let bytes = source.read_bytes(count)?;
        match Identifier::from_utf8(bytes.as_slice()) {
            Ok(identifier) => Ok(identifier),
            Err(e) => Err(Error { kind: ErrorKind::InvalidIdentifier(e), file_offset: start }),
        }
    }
}

impl WriteTo for Identifier {
    open spec fn spec_write(chars: Seq<char>) -> Option<Seq<u8>> {
        spec_write_identifier(chars)
    }

    fn write_to(&self, out: &mut Destination) -> (r: Result<(), EncodingError>) {
        let bytes = self.as_bytes();
        let result = write_length(bytes.len(), out);
        if result.is_err() {
            return result;
        }
        out.write_all(bytes);
        assert(out@ =~= old(out)@ + spec_write_identifier(self@).unwrap());
        Ok(())
    }
}

/// An identifier is read back after it is written, whatever bytes follow it.
pub proof fn lemma_identifier_round_trip(chars: Seq<char>, rest: Seq<u8>)
    requires
        spec_is_identifier(chars),
        spec_write_identifier(chars) is Some,
    ensures
        spec_read_identifier(spec_write_identifier(chars).unwrap() + rest) == Ok::<(Seq<char>, nat), (ErrorKind, nat)>(
            (chars, spec_write_identifier(chars).unwrap().len()),
        ),
{
    let e = encode_utf8(chars);
    let head = spec_length_bytes(e.len()).unwrap();
    let s = spec_write_identifier(chars).unwrap() + rest;
    assert(s =~= head + (e + rest));
    lemma_parse_length_round_trip(e.len(), e + rest);
    assert(s.skip(head.len() as int) =~= e + rest);
    assert((e + rest).take(e.len() as int) =~= e);
    vstd::utf8::encode_utf8_valid_utf8(chars);
    vstd::utf8::encode_utf8_decode_utf8(chars);
}

impl RoundTrip for Identifier {
    open spec fn spec_round_trips(chars: Seq<char>) -> bool {
        spec_is_identifier(chars)
    }

    #[verifier::spinoff_prover]
    proof fn lemma_round_trip(chars: Seq<char>, rest: Seq<u8>) {
        lemma_identifier_round_trip(chars, rest);
    }
}

/// Reading a module name: an identifier followed by a reserved integer, which must be zero.
pub open spec fn spec_read_module_name(s: Seq<u8>) -> Parsed<Seq<char>> {
    match spec_read_identifier(s) {
        Err(e) => Err(e),
        Ok((name, n)) => match spec_parse_reserved(s.skip(n as int)) {
            Err((k, o)) => Err((k, n + o)),
            Ok((_, m)) => Ok((name, n + m)),
        },
    }
}

/// The bytes written for a module name.
pub open spec fn spec_write_module_name(name: Seq<char>) -> Option<Seq<u8>> {
    spec_then(spec_write_identifier(name), Some(spec_encode_var_u28(0)))
}

impl ReadFrom for ModuleName {
    open spec fn spec_read(s: Seq<u8>) -> Parsed<Seq<char>> {
        spec_read_module_name(s)
    }

    #[verifier::spinoff_prover]
    fn read_from(source: &mut Source) -> (r: Result<ModuleName, Error>) {
        let name = Identifier::read_from(source)?;
        source.check_offset();
        proof {
            lemma_advanced(*old(source), *source);
        }
        parse_reserved(source)?;
        Ok(ModuleName::from_name(name))
    }
}

impl WriteTo for ModuleName {
    open spec fn spec_write(name: Seq<char>) -> Option<Seq<u8>> {
        spec_write_module_name(name)
    }

    fn write_to(&self, out: &mut Destination) -> (r: Result<(), EncodingError>) {
        let result = self.name.write_to(out);
        if result.is_err() {
            return result;
        }
        out.write_var_u28(VarU28::min());
        assert(out@ =~= old(out)@ + spec_write_module_name(self@).unwrap());
        Ok(())
    }
}

/// A module name is read back after it is written, whatever bytes follow it.
pub proof fn lemma_module_name_round_trip(name: Seq<char>, rest: Seq<u8>)
    requires
        spec_is_identifier(name),
        spec_write_module_name(name) is Some,
    ensures
        spec_read_module_name(spec_write_module_name(name).unwrap() + rest) == Ok::<
            (Seq<char>, nat),
            (ErrorKind, nat),
        >((name, spec_write_module_name(name).unwrap().len())),
{
    let w = spec_write_identifier(name).unwrap();
    let z = spec_encode_var_u28(0);
    let s = spec_write_module_name(name).unwrap() + rest;
    assert(s =~= w + (z + rest));
    lemma_identifier_round_trip(name, z + rest);
    assert(s.skip(w.len() as int) =~= z + rest);
    crate::integer::lemma_var_u28_round_trip(0, rest);
}

impl RoundTrip for ModuleName {
    open spec fn spec_round_trips(name: Seq<char>) -> bool {
        spec_is_identifier(name)
    }

    #[verifier::spinoff_prover]
    proof fn lemma_round_trip(name: Seq<char>, rest: Seq<u8>) {
        lemma_module_name_round_trip(name, rest);
    }
}

/// The metadata kind written as a byte.
pub open spec fn spec_metadata_kind_of(b: u8) -> Option<MetadataKind> {
    if b == 0 {
        Some(MetadataKind::Name)
    } else {
        None
    }
}

/// Reading a metadata entry: its kind, followed by its contents.
pub open spec fn spec_read_metadata(s: Seq<u8>) -> Parsed<MetadataView> {
    if s.len() == 0 {
        Err((ErrorKind::EndOfInput, 0))
    } else {
        match spec_metadata_kind_of(s[0]) {
            None => Err((ErrorKind::InvalidFlags(InvalidFlagsError { name: FlagsKind::MetadataKind, value: s[0] }), 0)),
            Some(MetadataKind::Name) => match spec_read_module_name(s.skip(1)) {
                Err((k, o)) => Err((k, 1 + o)),
                Ok((name, n)) => Ok((MetadataView::Name(name), 1 + n)),
            },
        }
    }
}

/// The bytes written for a metadata entry.
pub open spec fn spec_write_metadata(m: MetadataView) -> Option<Seq<u8>> {
    match m {
        MetadataView::Name(name) => spec_then(
            Some(seq![spec_metadata_kind_byte(MetadataKind::Name)]),
            spec_write_module_name(name),
        ),
    }
}

/// Reads a flags or tag byte.
fn read_flags(source: &mut Source) -> (r: Result<u8, Error>)
    ensures
        spec_read_outcome(*old(source), *final(source), u8::spec_read(old(source).rest()), r),
{
    u8::read_from(source)
}

impl ReadFrom for Metadata {
    open spec fn spec_read(s: Seq<u8>) -> Parsed<MetadataView> {
        spec_read_metadata(s)
    }

    #[verifier::spinoff_prover]
    fn read_from(source: &mut Source) -> (r: Result<Metadata, Error>) {
        let start = source.file_offset();
        let flags = read_flags(source)?;
        match MetadataKind::new(flags) {
            None => {
                assert(spec_metadata_kind_byte(MetadataKind::Name) != flags);
                Err(
                    Error {
                        kind: ErrorKind::InvalidFlags(InvalidFlagsError { name: FlagsKind::MetadataKind, value: flags }),
                        file_offset: start,
                    },
                )
            },
            Some(MetadataKind::Name) => {
                source.check_offset();
                proof {
                    lemma_advanced(*old(source), *source);
                }
                let name = ModuleName::read_from(source)?;
                Ok(Metadata::Name(name))
            },
        }
    }
}

impl WriteTo for Metadata {
    open spec fn spec_write(m: MetadataView) -> Option<Seq<u8>> {
        spec_write_metadata(m)
    }

    fn write_to(&self, out: &mut Destination) -> (r: Result<(), EncodingError>) {
        out.write_byte(self.kind().to_u8());
        match self {
            Metadata::Name(name) => {
                let ghost middle = out@;
                let result = name.write_to(out);
                proof {
                    let head = seq![spec_metadata_kind_byte(MetadataKind::Name)];
                    assert(middle =~= old(out)@ + head);
                    if result.is_err() {
                        lemma_prefix_concat(old(out)@, head, out@);
                    } else {
                        assert(out@ =~= old(out)@ + (head + spec_write_module_name(name@).unwrap()));
                    }
                }
                result
            },
        }
    }
}

impl RoundTrip for Metadata {
    open spec fn spec_round_trips(m: MetadataView) -> bool {
        match m {
            MetadataView::Name(name) => spec_is_identifier(name),
        }
    }

    #[verifier::spinoff_prover]
    proof fn lemma_round_trip(m: MetadataView, rest: Seq<u8>) {
        match m {
            MetadataView::Name(name) => {
                let w = spec_write_module_name(name).unwrap();
                let s = spec_write_metadata(m).unwrap() + rest;
                assert(s =~= seq![0u8] + (w + rest));
                assert(s.skip(1) =~= w + rest);
                lemma_module_name_round_trip(name, rest);
            },
        }
    }
}

/// Reading a symbol: its name, followed by the index it is assigned to.
pub open spec fn spec_read_symbol(s: Seq<u8>) -> Parsed<(Seq<char>, usize)> {
    match spec_read_identifier(s) {
        Err(e) => Err(e),
        Ok((name, n)) => match spec_parse_length(s.skip(n as int)) {
            Err((k, o)) => Err((k, n + o)),
            Ok((index, m)) => Ok(((name, index as usize), n + m)),
        },
    }
}

/// The bytes written for a symbol.
pub open spec fn spec_write_symbol(symbol: (Seq<char>, usize)) -> Option<Seq<u8>> {
    spec_then(spec_write_identifier(symbol.0), spec_length_bytes(symbol.1 as nat))
}

impl ReadFrom for (Identifier, usize) {
    open spec fn spec_read(s: Seq<u8>) -> Parsed<(Seq<char>, usize)> {
        spec_read_symbol(s)
    }

    #[verifier::spinoff_prover]
    fn read_from(source: &mut Source) -> (r: Result<(Identifier, usize), Error>) {
        let name = Identifier::read_from(source)?;
        source.check_offset();
        proof {
            lemma_advanced(*old(source), *source);
        }
        let index = parse_length(source)?;
        Ok((name, index))
    }
}

impl WriteTo for (Identifier, usize) {
    open spec fn spec_write(symbol: (Seq<char>, usize)) -> Option<Seq<u8>> {
        spec_write_symbol(symbol)
    }

    fn write_to(&self, out: &mut Destination) -> (r: Result<(), EncodingError>) {
        let result = self.0.write_to(out);
        if result.is_err() {
            return result;
        }
        let ghost middle = out@;
        let result = write_length(self.1, out);
        proof {
            let head = spec_write_identifier(self.0@).unwrap();
            if result.is_err() {
                lemma_prefix_concat(old(out)@, head, out@);
            } else {
                assert(out@ =~= old(out)@ + (head + spec_length_bytes(self.1 as nat).unwrap()));
            }
        }
        result
    }
}

impl RoundTrip for (Identifier, usize) {
    open spec fn spec_round_trips(symbol: (Seq<char>, usize)) -> bool {
        spec_is_identifier(symbol.0)
    }

    #[verifier::spinoff_prover]
    proof fn lemma_round_trip(symbol: (Seq<char>, usize), rest: Seq<u8>) {
        let w = spec_write_identifier(symbol.0).unwrap();
        let l = spec_length_bytes(symbol.1 as nat).unwrap();
        let s = spec_write_symbol(symbol).unwrap() + rest;
        assert(s =~= w + (l + rest));
        lemma_identifier_round_trip(symbol.0, l + rest);
        assert(s.skip(w.len() as int) =~= l + rest);
        lemma_parse_length_round_trip(symbol.1 as nat, rest);
    }
}

/// The symbol kind written as a byte.
pub open spec fn spec_symbol_kind_of(b: u8) -> Option<Kind> {
    if b == 0 {
        Some(Kind::Private)
    } else if b == 1 {
        Some(Kind::Export)
    } else {
        None
    }
}

/// The symbol target kind written as a byte.
pub open spec fn spec_target_kind_of(b: u8) -> Option<TargetKind> {
    if b == 1 {
        Some(TargetKind::FunctionTemplate)
    } else {
        None
    }
}

/// Reading a symbol assignment: the kind of its targets, the kind of its symbols, and the symbols after their count.
pub open spec fn spec_read_assignment(s: Seq<u8>) -> Parsed<AssignmentView> {
    if s.len() == 0 {
        Err((ErrorKind::EndOfInput, 0))
    } else {
        match spec_target_kind_of(s[0]) {
            None => Err((ErrorKind::InvalidFlags(InvalidFlagsError { name: FlagsKind::SymbolTarget, value: s[0] }), 0)),
            Some(target_kind) => if s.len() == 1 {
                Err((ErrorKind::EndOfInput, 1))
            } else {
                match spec_symbol_kind_of(s[1]) {
                    None => Err(
                        (ErrorKind::InvalidFlags(InvalidFlagsError { name: FlagsKind::SymbolKind, value: s[1] }), 1),
                    ),
                    Some(symbol_kind) => match spec_read_prefixed::<(Identifier, usize)>(s.skip(2)) {
                        Err((k, o)) => Err((k, 2 + o)),
                        Ok((symbols, n)) => Ok((AssignmentView { symbols, symbol_kind, target_kind }, 2 + n)),
                    },
                }
            },
        }
    }
}

/// The bytes written for a symbol assignment.
pub open spec fn spec_write_assignment(a: AssignmentView) -> Option<Seq<u8>> {
    spec_then(
        Some(seq![spec_target_kind_byte(a.target_kind), spec_kind_byte(a.symbol_kind)]),
        spec_write_prefixed::<(Identifier, usize)>(a.symbols),
    )
}

impl ReadFrom for Assignment {
    open spec fn spec_read(s: Seq<u8>) -> Parsed<AssignmentView> {
        spec_read_assignment(s)
    }

    #[verifier::spinoff_prover]
    fn read_from(source: &mut Source) -> (r: Result<Assignment, Error>) {
        let start = source.file_offset();
        let target_flags = read_flags(source)?;
        let target_kind = match TargetKind::new(target_flags) {
            Some(kind) => kind,
            None => {
                assert(spec_target_kind_byte(TargetKind::FunctionTemplate) != target_flags);
                return Err(
                    Error {
                        kind: ErrorKind::InvalidFlags(
                            InvalidFlagsError { name: FlagsKind::SymbolTarget, value: target_flags },
                        ),
                        file_offset: start,
                    },
                );
            },
        };
        source.check_offset();
        proof {
            lemma_advanced(*old(source), *source);
        }
        let kind_start = source.file_offset();
        let kind_flags = read_flags(source)?;
        let symbol_kind = match Kind::new(kind_flags) {
            Some(kind) => kind,
            None => {
                assert(spec_kind_byte(Kind::Private) != kind_flags);
                assert(spec_kind_byte(Kind::Export) != kind_flags);
                return Err(
                    Error {
                        kind: ErrorKind::InvalidFlags(InvalidFlagsError { name: FlagsKind::SymbolKind, value: kind_flags }),
                        file_offset: kind_start,
                    },
                );
            },
        };
        source.check_offset();
        proof {
            lemma_advanced(*old(source), *source);
            assert(old(source).rest().skip(1).skip(1) =~= old(source).rest().skip(2));
        }
        let symbols = parse_many_length_encoded::<(Identifier, usize)>(source)?;
        Ok(Assignment { symbols, symbol_kind, target_kind })
    }
}

impl WriteTo for Assignment {
    open spec fn spec_write(a: AssignmentView) -> Option<Seq<u8>> {
        spec_write_assignment(a)
    }

    fn write_to(&self, out: &mut Destination) -> (r: Result<(), EncodingError>) {
        out.write_byte(self.target_kind.to_u8());
        out.write_byte(self.symbol_kind.to_u8());
        let ghost middle = out@;
        let ghost head = seq![spec_target_kind_byte(self.target_kind), spec_kind_byte(self.symbol_kind)];
        let result = LengthPrefixed(self.symbols.as_slice()).write_to(out);
        proof {
            assert(middle =~= old(out)@ + head);
            if result.is_err() {
                lemma_prefix_concat(old(out)@, head, out@);
            } else {
                assert(out@ =~= old(out)@ + (head + spec_write_prefixed::<(Identifier, usize)>(self@.symbols).unwrap()));
            }
        }
        result
    }
}

impl RoundTrip for Assignment {
    open spec fn spec_round_trips(a: AssignmentView) -> bool {
        spec_all_round_trip::<(Identifier, usize)>(a.symbols)
    }

    #[verifier::spinoff_prover]
    proof fn lemma_round_trip(a: AssignmentView, rest: Seq<u8>) {
        let head = seq![spec_target_kind_byte(a.target_kind), spec_kind_byte(a.symbol_kind)];
        let w = spec_write_prefixed::<(Identifier, usize)>(a.symbols).unwrap();
        let s = spec_write_assignment(a).unwrap() + rest;
        assert(s =~= head + (w + rest));
        assert(s.skip(2) =~= w + rest);
        lemma_prefixed_round_trip::<(Identifier, usize)>(a.symbols, rest);
    }
}

} // verus!

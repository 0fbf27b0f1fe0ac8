//! Reading and writing of function signatures, instantiations, imports, and definitions.
use vstd::prelude::*;
use crate::binary::RoundTrip;
use crate::binary::lemma_many_round_trip;
use crate::binary::lemma_parse_length_round_trip;
use crate::binary::spec_all_round_trip;
use crate::binary::spec_length_bytes;
use crate::binary::spec_then;
use crate::binary::code::lemma_skip_concat;
use crate::binary::names::lemma_identifier_round_trip;
use crate::binary::names::spec_read_identifier;
use crate::binary::names::spec_write_identifier;
use crate::binary::parser::Error;
use crate::binary::parser::Parsed;
use crate::binary::parser::ReadFrom;
use crate::binary::parser::Source;
use crate::binary::parser::lemma_advanced;
use crate::binary::parser::parse_length;
use crate::binary::parser::parse_reserved;
use crate::binary::parser::read_many;
use crate::binary::parser::spec_parse_length;
use crate::binary::parser::spec_parse_reserved;
use crate::binary::parser::spec_read_many;
use crate::binary::writer::Destination;
use crate::binary::writer::WriteTo;
use crate::binary::writer::lemma_prefix_concat;
use crate::binary::writer::spec_write_many;
use crate::binary::writer::write_length;
use crate::binary::writer::write_many;
use crate::function::Definition;
use crate::function::Import;
use crate::function::ImportView;
use crate::function::Instantiation;
use crate::function::Signature;
use crate::function::SignatureView;
use crate::identifier::Identifier;
use crate::identifier::spec_is_identifier;
use crate::index::Index;
use crate::integer::EncodingError;
use crate::integer::VarU28;
use crate::integer::spec_encode_var_u28;
use crate::type_system::Reference;

verus! {

/// Reading a function signature: the number of result types, the number of parameter types, and all of the types.
pub open spec fn spec_read_signature(s: Seq<u8>) -> Parsed<SignatureView> {
    match spec_parse_length(s) {
        Err(e) => Err(e),
        Ok((result_count, n1)) => match spec_parse_length(s.skip(n1 as int)) {
            Err((k, o)) => Err((k, n1 + o)),
            Ok((parameter_count, n2)) => match spec_read_many::<Reference>(
                s.skip((n1 + n2) as int),
                result_count + parameter_count,
            ) {
                Err((k, o)) => Err((k, n1 + n2 + o)),
                Ok((types, n3)) => Ok((SignatureView { types, result_count }, n1 + n2 + n3)),
            },
        },
    }
}

/// The bytes written for a function signature.
pub open spec fn spec_write_signature(sig: SignatureView) -> Option<Seq<u8>> {
    spec_then(
        spec_then(
            spec_length_bytes(sig.result_count),
            spec_length_bytes((sig.types.len() - sig.result_count) as nat),
        ),
        spec_write_many::<Reference>(sig.types),
    )
}

impl ReadFrom for Signature {
    open spec fn spec_read(s: Seq<u8>) -> Parsed<SignatureView> {
        spec_read_signature(s)
    }

    #[verifier::spinoff_prover]
    fn read_from(source: &mut Source) -> (r: Result<Signature, Error>) {
        let result_count = parse_length(source)?;
        source.check_offset();
        proof {
            lemma_advanced(*old(source), *source);
        }
        let parameter_count = parse_length(source)?;
        source.check_offset();
        proof {
            lemma_advanced(*old(source), *source);
        }
        let types = read_many::<Reference>(source, result_count + parameter_count)?;
        Ok(Signature::from_types(types, result_count))
    }
}

impl WriteTo for Signature {
    open spec fn spec_write(sig: SignatureView) -> Option<Seq<u8>> {
        spec_write_signature(sig)
    }

    fn write_to(&self, out: &mut Destination) -> (r: Result<(), EncodingError>) {
        let ghost start = out@;
        let ghost sig = self@;
        let result_count = self.result_type_count();
        let parameter_count = self.parameter_type_count();
        let ghost w1 = spec_length_bytes(result_count as nat);
        let ghost w2 = spec_length_bytes(parameter_count as nat);
        let ghost w3 = spec_write_many::<Reference>(sig.types);
        let r1 = write_length(result_count, out);
        if r1.is_err() {
            return r1;
        }
        let r2 = write_length(parameter_count, out);
        if r2.is_err() {
            proof {
                lemma_prefix_concat(start, w1.unwrap(), out@);
            }
            return r2;
        }
        let ghost after2 = out@;
        let r3 = write_many(self.all_types().as_slice(), out);
        proof {
            assert(after2 =~= start + (w1.unwrap() + w2.unwrap()));
            if r3.is_err() {
                lemma_prefix_concat(start, w1.unwrap() + w2.unwrap(), out@);
            } else {
                assert(out@ =~= start + (w1.unwrap() + w2.unwrap() + w3.unwrap()));
            }
        }
        r3
    }
}

impl RoundTrip for Signature {
    open spec fn spec_round_trips(sig: SignatureView) -> bool {
        &&& sig.result_count <= sig.types.len()
        &&& spec_all_round_trip::<Reference>(sig.types)
    }

    #[verifier::spinoff_prover]
    proof fn lemma_round_trip(sig: SignatureView, rest: Seq<u8>) {
        let parameter_count = (sig.types.len() - sig.result_count) as nat;
        let w1 = spec_length_bytes(sig.result_count).unwrap();
        let w2 = spec_length_bytes(parameter_count).unwrap();
        let w3 = spec_write_many::<Reference>(sig.types).unwrap();
        let r2 = w3 + rest;
        let r1 = w2 + r2;
        let s = spec_write_signature(sig).unwrap() + rest;
        assert(s =~= w1 + r1);
        lemma_parse_length_round_trip(sig.result_count, r1);
        lemma_skip_concat(w1, r1);
        lemma_parse_length_round_trip(parameter_count, r2);
        assert(s.skip((w1.len() + w2.len()) as int) =~= r2);
        assert(sig.result_count + parameter_count == sig.types.len());
        lemma_many_round_trip::<Reference>(sig.types, rest);
    }
}

/// Reading a function instantiation: the index of its template, followed by a reserved integer, which must be zero.
pub open spec fn spec_read_instantiation(s: Seq<u8>) -> Parsed<usize> {
    match spec_parse_length(s) {
        Err(e) => Err(e),
        Ok((template, n)) => match spec_parse_reserved(s.skip(n as int)) {
            Err((k, o)) => Err((k, n + o)),
            Ok((_, m)) => Ok((template as usize, n + m)),
        },
    }
}

/// The bytes written for a function instantiation.
pub open spec fn spec_write_instantiation(template: usize) -> Option<Seq<u8>> {
    spec_then(spec_length_bytes(template as nat), Some(spec_encode_var_u28(0)))
}

impl ReadFrom for Instantiation {
    open spec fn spec_read(s: Seq<u8>) -> Parsed<usize> {
        spec_read_instantiation(s)
    }

    #[verifier::spinoff_prover]
    fn read_from(source: &mut Source) -> (r: Result<Instantiation, Error>) {
        let template = parse_length(source)?;
        source.check_offset();
        proof {
            lemma_advanced(*old(source), *source);
        }
        parse_reserved(source)?;
        Ok(Instantiation::with_template(Index::new(template)))
    }
}

impl WriteTo for Instantiation {
    open spec fn spec_write(template: usize) -> Option<Seq<u8>> {
        spec_write_instantiation(template)
    }

    fn write_to(&self, out: &mut Destination) -> (r: Result<(), EncodingError>) {
        let result = write_length(self.template.get(), out);
        if result.is_err() {
            return result;
        }
        out.write_var_u28(VarU28::min());
        assert(out@ =~= old(out)@ + spec_write_instantiation(self@).unwrap());
        Ok(())
    }
}

impl RoundTrip for Instantiation {
    open spec fn spec_round_trips(template: usize) -> bool {
        true
    }

    #[verifier::spinoff_prover]
    proof fn lemma_round_trip(template: usize, rest: Seq<u8>) {
        let w = spec_length_bytes(template as nat).unwrap();
        let z = spec_encode_var_u28(0);
        let s = spec_write_instantiation(template).unwrap() + rest;
        assert(s =~= w + (z + rest));
        lemma_parse_length_round_trip(template as nat, z + rest);
        lemma_skip_concat(w, z + rest);
        crate::integer::lemma_var_u28_round_trip(0, rest);
    }
}

/// Reading a function definition: the index of its signature, the index of its body, and a reserved integer, which must
/// be zero.
pub open spec fn spec_read_definition(s: Seq<u8>) -> Parsed<(usize, usize)> {
    match spec_parse_length(s) {
        Err(e) => Err(e),
        Ok((signature, n1)) => match spec_parse_length(s.skip(n1 as int)) {
            Err((k, o)) => Err((k, n1 + o)),
            Ok((body, n2)) => match spec_parse_reserved(s.skip((n1 + n2) as int)) {
                Err((k, o)) => Err((k, n1 + n2 + o)),
                Ok((_, n3)) => Ok(((signature as usize, body as usize), n1 + n2 + n3)),
            },
        },
    }
}

/// The bytes written for a function definition.
pub open spec fn spec_write_definition(d: (usize, usize)) -> Option<Seq<u8>> {
    spec_then(
        spec_then(spec_length_bytes(d.0 as nat), spec_length_bytes(d.1 as nat)),
        Some(spec_encode_var_u28(0)),
    )
}

impl ReadFrom for Definition {
    open spec fn spec_read(s: Seq<u8>) -> Parsed<(usize, usize)> {
        spec_read_definition(s)
    }

    #[verifier::spinoff_prover]
    fn read_from(source: &mut Source) -> (r: Result<Definition, Error>) {
        let signature = parse_length(source)?;
        source.check_offset();
        proof {
            lemma_advanced(*old(source), *source);
        }
        let body = parse_length(source)?;
        source.check_offset();
        proof {
            lemma_advanced(*old(source), *source);
        }
        parse_reserved(source)?;
        Ok(Definition::new(Index::new(signature), Index::new(body)))
    }
}

impl WriteTo for Definition {
    open spec fn spec_write(d: (usize, usize)) -> Option<Seq<u8>> {
        spec_write_definition(d)
    }

    fn write_to(&self, out: &mut Destination) -> (r: Result<(), EncodingError>) {
        let ghost start = out@;
        let ghost w1 = spec_length_bytes(self.signature@ as nat);
        let r1 = write_length(self.signature.get(), out);
        if r1.is_err() {
            return r1;
        }
        let r2 = write_length(self.body.get(), out);
        if r2.is_err() {
            proof {
                lemma_prefix_concat(start, w1.unwrap(), out@);
            }
            return r2;
        }
        out.write_var_u28(VarU28::min());
        assert(out@ =~= start + spec_write_definition(self@).unwrap());
        Ok(())
    }
}

impl RoundTrip for Definition {
    open spec fn spec_round_trips(d: (usize, usize)) -> bool {
        true
    }

    #[verifier::spinoff_prover]
    proof fn lemma_round_trip(d: (usize, usize), rest: Seq<u8>) {
        let w1 = spec_length_bytes(d.0 as nat).unwrap();
        let w2 = spec_length_bytes(d.1 as nat).unwrap();
        let z = spec_encode_var_u28(0);
        let r2 = z + rest;
        let r1 = w2 + r2;
        let s = spec_write_definition(d).unwrap() + rest;
        assert(s =~= w1 + r1);
        lemma_parse_length_round_trip(d.0 as nat, r1);
        lemma_skip_concat(w1, r1);
        lemma_parse_length_round_trip(d.1 as nat, r2);
        assert(s.skip((w1.len() + w2.len()) as int) =~= r2);
        crate::integer::lemma_var_u28_round_trip(0, rest);
    }
}

/// Reading a function import: the index of the module it is imported from, its symbol, and the index of its signature.
pub open spec fn spec_read_import(s: Seq<u8>) -> Parsed<ImportView> {
    match spec_parse_length(s) {
        Err(e) => Err(e),
        Ok((module, n1)) => match spec_read_identifier(s.skip(n1 as int)) {
            Err((k, o)) => Err((k, n1 + o)),
            Ok((symbol, n2)) => match spec_parse_length(s.skip((n1 + n2) as int)) {
                Err((k, o)) => Err((k, n1 + n2 + o)),
                Ok((signature, n3)) => Ok(
                    (ImportView { module: module as usize, symbol, signature: signature as usize }, n1 + n2 + n3),
                ),
            },
        },
    }
}

/// The bytes written for a function import.
pub open spec fn spec_write_import(i: ImportView) -> Option<Seq<u8>> {
    spec_then(
        spec_then(spec_length_bytes(i.module as nat), spec_write_identifier(i.symbol)),
        spec_length_bytes(i.signature as nat),
    )
}

impl ReadFrom for Import {
    open spec fn spec_read(s: Seq<u8>) -> Parsed<ImportView> {
        spec_read_import(s)
    }

    #[verifier::spinoff_prover]
    fn read_from(source: &mut Source) -> (r: Result<Import, Error>) {
        let module = parse_length(source)?;
        source.check_offset();
        proof {
            lemma_advanced(*old(source), *source);
        }
        let symbol = Identifier::read_from(source)?;
        source.check_offset();
        proof {
            lemma_advanced(*old(source), *source);
        }
        let signature = parse_length(source)?;
        Ok(Import::new(Index::new(module), symbol, Index::new(signature)))
    }
}

impl WriteTo for Import {
    open spec fn spec_write(i: ImportView) -> Option<Seq<u8>> {
        spec_write_import(i)
    }

    fn write_to(&self, out: &mut Destination) -> (r: Result<(), EncodingError>) {
        let ghost start = out@;
        let ghost w1 = spec_length_bytes(self.module@ as nat);
        let ghost w2 = spec_write_identifier(self.symbol@);
        let ghost w3 = spec_length_bytes(self.signature@ as nat);
        let r1 = write_length(self.module.get(), out);
        if r1.is_err() {
            return r1;
        }
        let r2 = self.symbol.write_to(out);
        if r2.is_err() {
            proof {
                lemma_prefix_concat(start, w1.unwrap(), out@);
            }
            return r2;
        }
        let ghost after2 = out@;
        let r3 = write_length(self.signature.get(), out);
        proof {
            assert(after2 =~= start + (w1.unwrap() + w2.unwrap()));
            if r3.is_err() {
                lemma_prefix_concat(start, w1.unwrap() + w2.unwrap(), out@);
            } else {
                assert(out@ =~= start + (w1.unwrap() + w2.unwrap() + w3.unwrap()));
            }
        }
        r3
    }
}

impl RoundTrip for Import {
    open spec fn spec_round_trips(i: ImportView) -> bool {
        spec_is_identifier(i.symbol)
    }

    #[verifier::spinoff_prover]
    proof fn lemma_round_trip(i: ImportView, rest: Seq<u8>) {
        let w1 = spec_length_bytes(i.module as nat).unwrap();
        let w2 = spec_write_identifier(i.symbol).unwrap();
        let w3 = spec_length_bytes(i.signature as nat).unwrap();
        let r2 = w3 + rest;
        let r1 = w2 + r2;
        let s = spec_write_import(i).unwrap() + rest;
        assert(s =~= w1 + r1);
        lemma_parse_length_round_trip(i.module as nat, r1);
        lemma_skip_concat(w1, r1);
        lemma_identifier_round_trip(i.symbol, r2);
        assert(s.skip((w1.len() + w2.len()) as int) =~= r2);
        lemma_parse_length_round_trip(i.signature as nat, rest);
    }
}

} // verus!

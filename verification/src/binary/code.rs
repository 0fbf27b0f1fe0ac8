//! Reading and writing of values, instructions, blocks, function bodies, and function signatures.
use vstd::prelude::*;
use vstd::array::array_as_slice;
use crate::binary::RoundTrip;
use crate::binary::parser::Error;
use crate::binary::parser::ErrorKind;
use crate::binary::parser::Parsed;
use crate::binary::parser::ReadFrom;
use crate::binary::parser::Source;
use crate::binary::parser::lemma_advanced;
use crate::binary::parser::spec_parse_bytes;
use crate::binary::parser::spec_parse_var_i28;
use crate::binary::parser::spec_parse_var_u28;
use crate::binary::parser::spec_parse_length;
use crate::binary::parser::spec_read_many;
use crate::binary::parser::spec_read_prefixed;
use crate::binary::parser::spec_views;
use crate::binary::parser::read_many;
use crate::binary::parser::parse_length;
use crate::binary::parser::parse_many_length_encoded;
use crate::binary::writer::LengthPrefixed;
use crate::binary::writer::lemma_prefix_concat;
use crate::binary::writer::spec_write_many;
use crate::binary::writer::spec_write_prefixed;
use crate::binary::writer::write_length;
use crate::binary::writer::write_many;
use crate::binary::spec_then;
use crate::binary::spec_length_bytes;
use crate::binary::spec_all_round_trip;
use crate::binary::lemma_parse_length_round_trip;
use crate::binary::lemma_many_round_trip;
use crate::binary::lemma_prefixed_round_trip;
use crate::integer::spec_encode_var_u28;
use crate::instruction::Instruction;
use crate::instruction::InstructionView;
use crate::type_system::ReferenceView;
use crate::instruction::Opcode;
use crate::instruction::spec_opcode_value;
use crate::instruction::block::Block;
use crate::instruction::block::BlockView;
use crate::type_system::Reference;
use crate::function::Body;
use crate::function::BodyView;
use crate::binary::writer::Destination;
use crate::binary::writer::WriteTo;
use crate::integer::EncodingError;
use crate::integer::spec_encode_var_i28;
use crate::instruction::value::Constant;
use crate::instruction::value::ConstantFloat;
use crate::instruction::value::ConstantInteger;
use crate::instruction::value::ConstantTag;
use crate::instruction::value::InvalidTagError;
use crate::instruction::value::Value;
use crate::instruction::value::spec_constant_tag;
use crate::instruction::value::spec_constant_tag_value;

verus! {

/// The constant tag written as a signed integer.
pub open spec fn spec_constant_tag_of(value: i32) -> Option<ConstantTag> {
    if value == -1 {
        Some(ConstantTag::IntegerZero)
    } else if value == -2 {
        Some(ConstantTag::IntegerOne)
    } else if value == -3 {
        Some(ConstantTag::IntegerAll)
    } else if value == -4 {
        Some(ConstantTag::IntegerSignedMaximum)
    } else if value == -5 {
        Some(ConstantTag::IntegerSignedMinimum)
    } else if value == -6 {
        Some(ConstantTag::IntegerInline8)
    } else if value == -7 {
        Some(ConstantTag::IntegerInline16)
    } else if value == -8 {
        Some(ConstantTag::IntegerInline32)
    } else if value == -9 {
        Some(ConstantTag::IntegerInline64)
    } else if value == -10 {
        Some(ConstantTag::IntegerInline128)
    } else if value == -21 {
        Some(ConstantTag::Float16)
    } else if value == -22 {
        Some(ConstantTag::Float32)
    } else if value == -23 {
        Some(ConstantTag::Float64)
    } else if value == -24 {
        Some(ConstantTag::Float128)
    } else {
        None
    }
}

/// Constant tags and the integers they are written as correspond one to one.
pub proof fn lemma_constant_tag_of(value: i32, tag: ConstantTag)
    ensures
        spec_constant_tag_of(value) == Some(tag) <==> spec_constant_tag_value(tag) == value,
{
}

/// The number of bytes that follow a constant tag.
pub open spec fn spec_payload_length(tag: ConstantTag) -> nat {
    match tag {
        ConstantTag::IntegerInline8 => 1,
        ConstantTag::IntegerInline16 => 2,
        ConstantTag::IntegerInline32 => 4,
        ConstantTag::IntegerInline64 => 8,
        ConstantTag::IntegerInline128 => 16,
        ConstantTag::Float16 => 2,
        ConstantTag::Float32 => 4,
        ConstantTag::Float64 => 8,
        ConstantTag::Float128 => 16,
        _ => 0,
    }
}

/// The constant with the given tag whose bytes, in little-endian order, are the leading bytes of `b`.
pub open spec fn spec_constant_value(tag: ConstantTag, b: Seq<u8>) -> Value {
    match tag {
        ConstantTag::IntegerZero => Value::Constant(Constant::Integer(ConstantInteger::Zero)),
        ConstantTag::IntegerOne => Value::Constant(Constant::Integer(ConstantInteger::One)),
        ConstantTag::IntegerAll => Value::Constant(Constant::Integer(ConstantInteger::All)),
        ConstantTag::IntegerSignedMaximum => Value::Constant(Constant::Integer(ConstantInteger::SignedMaximum)),
        ConstantTag::IntegerSignedMinimum => Value::Constant(Constant::Integer(ConstantInteger::SignedMinimum)),
        ConstantTag::IntegerInline8 => Value::Constant(Constant::Integer(ConstantInteger::Byte(b[0]))),
        ConstantTag::IntegerInline16 => Value::Constant(Constant::Integer(ConstantInteger::I16([b[0], b[1]]))),
        ConstantTag::IntegerInline32 => Value::Constant(
            Constant::Integer(ConstantInteger::I32([b[0], b[1], b[2], b[3]])),
        ),
        ConstantTag::IntegerInline64 => Value::Constant(
            Constant::Integer(ConstantInteger::I64([b[0], b[1], b[2], b[3], b[4], b[5], b[6], b[7]])),
        ),
        ConstantTag::IntegerInline128 => Value::Constant(
            Constant::Integer(
                ConstantInteger::I128(
                    [
                        b[0],
                        b[1],
                        b[2],
                        b[3],
                        b[4],
                        b[5],
                        b[6],
                        b[7],
                        b[8],
                        b[9],
                        b[10],
                        b[11],
                        b[12],
                        b[13],
                        b[14],
                        b[15],
                    ],
                ),
            ),
        ),
        ConstantTag::Float16 => Value::Constant(Constant::Float(ConstantFloat::Half([b[0], b[1]]))),
        ConstantTag::Float32 => Value::Constant(Constant::Float(ConstantFloat::Single([b[0], b[1], b[2], b[3]]))),
        ConstantTag::Float64 => Value::Constant(
            Constant::Float(ConstantFloat::Double([b[0], b[1], b[2], b[3], b[4], b[5], b[6], b[7]])),
        ),
        ConstantTag::Float128 => Value::Constant(
            Constant::Float(
                ConstantFloat::Quadruple(
                    [
                        b[0],
                        b[1],
                        b[2],
                        b[3],
                        b[4],
                        b[5],
                        b[6],
                        b[7],
                        b[8],
                        b[9],
                        b[10],
                        b[11],
                        b[12],
                        b[13],
                        b[14],
                        b[15],
                    ],
                ),
            ),
        ),
    }
}

/// The bytes that follow the tag of a value.
pub open spec fn spec_payload(v: Value) -> Seq<u8> {
    match v {
        Value::Constant(Constant::Integer(ConstantInteger::Byte(x))) => seq![x],
        Value::Constant(Constant::Integer(ConstantInteger::I16(a))) => a@,
        Value::Constant(Constant::Integer(ConstantInteger::I32(a))) => a@,
        Value::Constant(Constant::Integer(ConstantInteger::I64(a))) => a@,
        Value::Constant(Constant::Integer(ConstantInteger::I128(a))) => a@,
        Value::Constant(Constant::Float(ConstantFloat::Half(a))) => a@,
        Value::Constant(Constant::Float(ConstantFloat::Single(a))) => a@,
        Value::Constant(Constant::Float(ConstantFloat::Double(a))) => a@,
        Value::Constant(Constant::Float(ConstantFloat::Quadruple(a))) => a@,
        _ => Seq::empty(),
    }
}

/// The tag of a value.
pub open spec fn spec_value_tag(v: Value) -> ConstantTag {
    match v {
        Value::Constant(c) => spec_constant_tag(c),
    }
}

/// The bytes written for a value: its tag as a signed integer, followed by the bytes of the constant.
pub open spec fn spec_write_value(v: Value) -> Seq<u8> {
    spec_encode_var_i28(spec_constant_tag_value(spec_value_tag(v)) as u32) + spec_payload(v)
}

/// Reading a value. A non-negative integer in place of a tag would refer to a register, which is not supported.
pub open spec fn spec_read_value(s: Seq<u8>) -> Parsed<Value> {
    match spec_parse_var_i28(s) {
        Err(e) => Err(e),
        Ok((bits, n)) => {
            let value = bits as i32;
            if value >= 0 {
                Err((ErrorKind::UnsupportedValue(value), 0))
            } else {
                match spec_constant_tag_of(value) {
                    None => Err((ErrorKind::InvalidConstantTag(InvalidTagError { tag: value }), 0)),
                    Some(tag) => match spec_parse_bytes(s.skip(n as int), spec_payload_length(tag)) {
                        Err((k, o)) => Err((k, n + o)),
                        Ok((b, m)) => Ok((spec_constant_value(tag, b), n + m)),
                    },
                }
            }
        },
    }
}

/// Reads the bytes of a constant.
fn read_payload(source: &mut Source, tag: ConstantTag) -> (r: Result<Value, Error>)
    ensures
        crate::binary::parser::spec_read_outcome(
            *old(source),
            *final(source),
            match spec_parse_bytes(old(source).rest(), spec_payload_length(tag)) {
                Err(e) => Err(e),
                Ok((b, m)) => Ok((spec_constant_value(tag, b), m)),
            },
            r,
        ),
{
    match tag {
        ConstantTag::IntegerZero => Ok(Value::from_integer(ConstantInteger::Zero)),
        ConstantTag::IntegerOne => Ok(Value::from_integer(ConstantInteger::One)),
        ConstantTag::IntegerAll => Ok(Value::from_integer(ConstantInteger::All)),
        ConstantTag::IntegerSignedMaximum => Ok(Value::from_integer(ConstantInteger::SignedMaximum)),
        ConstantTag::IntegerSignedMinimum => Ok(Value::from_integer(ConstantInteger::SignedMinimum)),
        ConstantTag::IntegerInline8 => {
            let b = source.read_bytes(1)?;
            Ok(Value::from_integer(ConstantInteger::Byte(b[0])))
        },
        ConstantTag::IntegerInline16 => {
            let b = source.read_bytes(2)?;
            Ok(Value::from_integer(ConstantInteger::I16([b[0], b[1]])))
        },
        ConstantTag::IntegerInline32 => {
            let b = source.read_bytes(4)?;
            Ok(Value::from_integer(ConstantInteger::I32([b[0], b[1], b[2], b[3]])))
        },
        ConstantTag::IntegerInline64 => {
            let b = source.read_bytes(8)?;
            Ok(Value::from_integer(ConstantInteger::I64([b[0], b[1], b[2], b[3], b[4], b[5], b[6], b[7]])))
        },
        ConstantTag::IntegerInline128 => {
            let b = source.read_bytes(16)?;
            Ok(
                Value::from_integer(
                    ConstantInteger::I128(
                        [
                            b[0],
                            b[1],
                            b[2],
                            b[3],
                            b[4],
                            b[5],
                            b[6],
                            b[7],
                            b[8],
                            b[9],
                            b[10],
                            b[11],
                            b[12],
                            b[13],
                            b[14],
                            b[15],
                        ],
                    ),
                ),
            )
        },
        ConstantTag::Float16 => {
            let b = source.read_bytes(2)?;
            Ok(Value::from_float(ConstantFloat::Half([b[0], b[1]])))
        },
        ConstantTag::Float32 => {
            let b = source.read_bytes(4)?;
            Ok(Value::from_float(ConstantFloat::Single([b[0], b[1], b[2], b[3]])))
        },
        ConstantTag::Float64 => {
            let b = source.read_bytes(8)?;
            Ok(Value::from_float(ConstantFloat::Double([b[0], b[1], b[2], b[3], b[4], b[5], b[6], b[7]])))
        },
        ConstantTag::Float128 => {
            let b = source.read_bytes(16)?;
            Ok(
                Value::from_float(
                    ConstantFloat::Quadruple(
                        [
                            b[0],
                            b[1],
                            b[2],
                            b[3],
                            b[4],
                            b[5],
                            b[6],
                            b[7],
                            b[8],
                            b[9],
                            b[10],
                            b[11],
                            b[12],
                            b[13],
                            b[14],
                            b[15],
                        ],
                    ),
                ),
            )
        },
    }
}

impl ReadFrom for Value {
    open spec fn spec_read(s: Seq<u8>) -> Parsed<Value> {
        spec_read_value(s)
    }

    #[verifier::spinoff_prover]
    fn read_from(source: &mut Source) -> (r: Result<Value, Error>) {
        let start = source.file_offset();
        let tag = source.read_var_i28()?;
        let value = tag.get();
        if value >= 0 {
            return Err(Error { kind: ErrorKind::UnsupportedValue(value), file_offset: start });
        }
        let constant_tag = match ConstantTag::try_from_i28(tag) {
            Ok(t) => t,
            Err(e) => {
                proof {
                    if let Some(t) = spec_constant_tag_of(value) {
                        lemma_constant_tag_of(value, t);
                    }
                }
                return Err(Error { kind: ErrorKind::InvalidConstantTag(e), file_offset: start });
            },
        };
        proof {
            lemma_constant_tag_of(value, constant_tag);
        }
        source.check_offset();
        proof {
            lemma_advanced(*old(source), *source);
        }
        read_payload(source, constant_tag)
    }
}

impl WriteTo for Value {
    open spec fn spec_write(v: Value) -> Option<Seq<u8>> {
        Some(spec_write_value(v))
    }

    fn write_to(&self, out: &mut Destination) -> (r: Result<(), EncodingError>) {
        match self {
            Value::Constant(constant) => {
                let tag = constant.tag().into_i28();
                let ghost value = spec_constant_tag_value(spec_constant_tag(*constant));
                let ghost bits = tag@;
                assert(bits == value as u32) by (bit_vector)
                    requires
                        bits as i32 == value,
                ;
                out.write_var_i28(tag);
                match constant {
                    Constant::Integer(ConstantInteger::Byte(x)) => out.write_byte(*x),
                    Constant::Integer(ConstantInteger::I16(a)) => out.write_all(array_as_slice(a)),
                    Constant::Integer(ConstantInteger::I32(a)) => out.write_all(array_as_slice(a)),
                    Constant::Integer(ConstantInteger::I64(a)) => out.write_all(array_as_slice(a)),
                    Constant::Integer(ConstantInteger::I128(a)) => out.write_all(array_as_slice(a)),
                    Constant::Float(ConstantFloat::Half(a)) => out.write_all(array_as_slice(a)),
                    Constant::Float(ConstantFloat::Single(a)) => out.write_all(array_as_slice(a)),
                    Constant::Float(ConstantFloat::Double(a)) => out.write_all(array_as_slice(a)),
                    Constant::Float(ConstantFloat::Quadruple(a)) => out.write_all(array_as_slice(a)),
                    _ => {},
                }
                assert(out@ =~= old(out)@ + spec_write_value(*self));
                Ok(())
            },
        }
    }
}

/// The integer that a constant tag is written as fits in a signed variable-length integer.
proof fn lemma_tag_value_bits(value: i32)
    by (bit_vector)
    requires
        -24 <= value <= -1,
    ensures
        crate::integer::fits_i28(#[verifier::truncate] (value as u32)),
        (#[verifier::truncate] (value as u32)) as i32 == value,
{
}

impl RoundTrip for Value {
    open spec fn spec_round_trips(v: Value) -> bool {
        true
    }

    #[verifier::spinoff_prover]
    proof fn lemma_round_trip(v: Value, rest: Seq<u8>) {
        let tag = spec_value_tag(v);
        let value = spec_constant_tag_value(tag);
        let payload = spec_payload(v);
        lemma_tag_value_bits(value);
        lemma_constant_tag_of(value, tag);
        crate::integer::lemma_var_i28_round_trip(value as u32, payload + rest);
        let head = spec_encode_var_i28(value as u32);
        let s = spec_write_value(v) + rest;
        assert(s =~= head + (payload + rest));
        assert(s.skip(head.len() as int) =~= payload + rest);
        assert(payload.len() == spec_payload_length(tag));
        let b = (payload + rest).take(spec_payload_length(tag) as int);
        assert(b =~= payload);
        match v {
            Value::Constant(Constant::Integer(ConstantInteger::I16(a))) => {
                assert([b[0], b[1]] =~= a);
            },
            Value::Constant(Constant::Integer(ConstantInteger::I32(a))) => {
                assert([b[0], b[1], b[2], b[3]] =~= a);
            },
            Value::Constant(Constant::Integer(ConstantInteger::I64(a))) => {
                assert([b[0], b[1], b[2], b[3], b[4], b[5], b[6], b[7]] =~= a);
            },
            Value::Constant(Constant::Integer(ConstantInteger::I128(a))) => {
                assert([b[0], b[1], b[2], b[3], b[4], b[5], b[6], b[7], b[8], b[9], b[10], b[11], b[12], b[13], b[14], b[15]] =~= a);
            },
            Value::Constant(Constant::Float(ConstantFloat::Half(a))) => {
                assert([b[0], b[1]] =~= a);
            },
            Value::Constant(Constant::Float(ConstantFloat::Single(a))) => {
                assert([b[0], b[1], b[2], b[3]] =~= a);
            },
            Value::Constant(Constant::Float(ConstantFloat::Double(a))) => {
                assert([b[0], b[1], b[2], b[3], b[4], b[5], b[6], b[7]] =~= a);
            },
            Value::Constant(Constant::Float(ConstantFloat::Quadruple(a))) => {
                assert([b[0], b[1], b[2], b[3], b[4], b[5], b[6], b[7], b[8], b[9], b[10], b[11], b[12], b[13], b[14], b[15]] =~= a);
            },
            _ => {},
        }
        assert(spec_constant_value(tag, b) == v);
    }
}

/// Reading an instruction: its opcode, followed by the values it returns for `ret`.
pub open spec fn spec_read_instruction(s: Seq<u8>) -> Parsed<InstructionView> {
    match spec_parse_var_u28(s) {
        Err(e) => Err(e),
        Ok((opcode, n)) => if opcode == 0 {
            Ok((InstructionView::Unreachable, n))
        } else if opcode == 1 {
            match spec_read_prefixed::<Value>(s.skip(n as int)) {
                Ok((values, m)) => Ok((InstructionView::Return(values), n + m)),
                Err((k, o)) => Err((k, n + o)),
            }
        } else {
            Err((ErrorKind::InvalidOpcode(opcode), 0))
        },
    }
}

/// The bytes written for an instruction.
pub open spec fn spec_write_instruction(i: InstructionView) -> Option<Seq<u8>> {
    match i {
        InstructionView::Unreachable => Some(spec_encode_var_u28(0)),
        InstructionView::Return(values) => spec_then(Some(spec_encode_var_u28(1)), spec_write_prefixed::<Value>(values)),
    }
}

impl ReadFrom for Instruction {
    open spec fn spec_read(s: Seq<u8>) -> Parsed<InstructionView> {
        spec_read_instruction(s)
    }

    #[verifier::spinoff_prover]
    fn read_from(source: &mut Source) -> (r: Result<Instruction, Error>) {
        let start = source.file_offset();
        let opcode = source.read_var_u28()?;
        match Opcode::try_from_u28(opcode) {
            Err(_) => {
                assert(spec_opcode_value(Opcode::Unreachable) != opcode@);
                assert(spec_opcode_value(Opcode::Return) != opcode@);
                Err(Error { kind: ErrorKind::InvalidOpcode(opcode.get()), file_offset: start })
            },
            Ok(Opcode::Unreachable) => Ok(Instruction::Unreachable),
            Ok(Opcode::Return) => {
                source.check_offset();
                proof {
                    lemma_advanced(*old(source), *source);
                }
                let values = parse_many_length_encoded::<Value>(source)?;
                proof {
                    assert(values@ =~= spec_views(values@));
                }
                Ok(Instruction::Return(values))
            },
        }
    }
}

impl WriteTo for Instruction {
    open spec fn spec_write(i: InstructionView) -> Option<Seq<u8>> {
        spec_write_instruction(i)
    }

    fn write_to(&self, out: &mut Destination) -> (r: Result<(), EncodingError>) {
        out.write_var_u28(self.opcode().into_u28());
        let ghost middle = out@;
        if let Instruction::Return(values) = self {
            proof {
                assert(values@ =~= spec_views(values@));
            }
            let result = LengthPrefixed(values.as_slice()).write_to(out);
            proof {
                if result is Err {
                    lemma_prefix_concat(old(out)@, spec_encode_var_u28(1), out@);
                } else {
                    assert(out@ =~= old(out)@ + (spec_encode_var_u28(1) + spec_write_prefixed::<Value>(values@).unwrap()));
                }
            }
            return result;
        }
        Ok(())
    }
}

impl RoundTrip for Instruction {
    open spec fn spec_round_trips(i: InstructionView) -> bool {
        true
    }

    #[verifier::spinoff_prover]
    proof fn lemma_round_trip(i: InstructionView, rest: Seq<u8>) {
        match i {
            InstructionView::Unreachable => {
                crate::integer::lemma_var_u28_round_trip(0, rest);
            },
            InstructionView::Return(values) => {
                let head = spec_encode_var_u28(1);
                let body = spec_write_prefixed::<Value>(values).unwrap();
                crate::integer::lemma_var_u28_round_trip(1, body + rest);
                assert(spec_all_round_trip::<Value>(values));
                lemma_prefixed_round_trip::<Value>(values, rest);
                let s = head + body + rest;
                assert(s =~= head + (body + rest));
                assert(s.skip(head.len() as int) =~= body + rest);
            },
        }
    }
}

/// Reading a block: the number of input registers, the number of temporary registers, the types of all registers, and
/// the instructions after their count.
#[verifier::opaque]
pub open spec fn spec_read_block(s: Seq<u8>) -> Parsed<BlockView> {
    match spec_parse_length(s) {
        Err(e) => Err(e),
        Ok((input_count, n1)) => match spec_parse_length(s.skip(n1 as int)) {
            Err((k, o)) => Err((k, n1 + o)),
            Ok((temporary_count, n2)) => match spec_read_many::<Reference>(
                s.skip((n1 + n2) as int),
                input_count + temporary_count,
            ) {
                Err((k, o)) => Err((k, n1 + n2 + o)),
                Ok((types, n3)) => match spec_read_prefixed::<Instruction>(s.skip((n1 + n2 + n3) as int)) {
                    Err((k, o)) => Err((k, n1 + n2 + n3 + o)),
                    Ok((instructions, n4)) => Ok(
                        (BlockView { types, input_count, instructions }, n1 + n2 + n3 + n4),
                    ),
                },
            },
        },
    }
}

/// The bytes written for a block.
#[verifier::opaque]
pub open spec fn spec_write_block(b: BlockView) -> Option<Seq<u8>> {
    spec_then(
        spec_then(
            spec_then(
                spec_length_bytes(b.input_count),
                spec_length_bytes((b.types.len() - b.input_count) as nat),
            ),
            spec_write_many::<Reference>(b.types),
        ),
        spec_write_prefixed::<Instruction>(b.instructions),
    )
}

impl ReadFrom for Block {
    open spec fn spec_read(s: Seq<u8>) -> Parsed<BlockView> {
        spec_read_block(s)
    }

    #[verifier::rlimit(80)]
    #[verifier::spinoff_prover]
    fn read_from(source: &mut Source) -> (r: Result<Block, Error>) {
        proof {
            reveal(spec_read_block);
        }
        let input_count = parse_length(source)?;
        source.check_offset();
        proof {
            lemma_advanced(*old(source), *source);
        }
        let temporary_count = parse_length(source)?;
        source.check_offset();
        proof {
            lemma_advanced(*old(source), *source);
        }
        let types = read_many::<Reference>(source, input_count + temporary_count)?;
        source.check_offset();
        proof {
            lemma_advanced(*old(source), *source);
        }
        let instructions = parse_many_length_encoded::<Instruction>(source)?;
        Ok(Block::from_types(types, input_count, instructions))
    }
}

impl WriteTo for Block {
    open spec fn spec_write(b: BlockView) -> Option<Seq<u8>> {
        spec_write_block(b)
    }

    fn write_to(&self, out: &mut Destination) -> (r: Result<(), EncodingError>) {
        proof {
            reveal(spec_write_block);
        }
        let ghost start = out@;
        let ghost b = self@;
        let input_count = self.input_count();
        let temporary_count = self.temporary_count();
        let ghost w1 = spec_length_bytes(input_count as nat);
        let ghost w2 = spec_length_bytes(temporary_count as nat);
        let ghost w3 = spec_write_many::<Reference>(b.types);
        let ghost w4 = spec_write_prefixed::<Instruction>(b.instructions);
        let r1 = write_length(input_count, out);
        if r1.is_err() {
            return r1;
        }
        let ghost after1 = out@;
        let r2 = write_length(temporary_count, out);
        if r2.is_err() {
            proof {
                lemma_prefix_concat(start, w1.unwrap(), out@);
            }
            return r2;
        }
        let ghost after2 = out@;
        let r3 = write_many(self.types().as_slice(), out);
        if r3.is_err() {
            proof {
                assert(after2 =~= start + (w1.unwrap() + w2.unwrap()));
                lemma_prefix_concat(start, w1.unwrap() + w2.unwrap(), out@);
            }
            return r3;
        }
        let ghost after3 = out@;
        let r4 = LengthPrefixed(self.instructions().as_slice()).write_to(out);
        proof {
            assert(after3 =~= start + (w1.unwrap() + w2.unwrap() + w3.unwrap()));
            if r4.is_err() {
                lemma_prefix_concat(start, w1.unwrap() + w2.unwrap() + w3.unwrap(), out@);
            } else {
                assert(out@ =~= start + (w1.unwrap() + w2.unwrap() + w3.unwrap() + w4.unwrap()));
            }
        }
        r4
    }
}

/// Whether reading gives a block back after writing it: it has no more input registers than types, and its types and
/// instructions are read back.
pub open spec fn spec_block_round_trips(b: BlockView) -> bool {
    &&& b.input_count <= b.types.len()
    &&& spec_all_round_trip::<Reference>(b.types)
}

/// Reading what was written for `a` and then `b`, reading `a` consumes exactly its bytes.
pub proof fn lemma_skip_concat(a: Seq<u8>, b: Seq<u8>)
    ensures
        (a + b).skip(a.len() as int) == b,
{
    assert((a + b).skip(a.len() as int) =~= b);
}

impl RoundTrip for Block {
    open spec fn spec_round_trips(b: BlockView) -> bool {
        spec_block_round_trips(b)
    }

    #[verifier::spinoff_prover]
    #[verifier::rlimit(60)]
    proof fn lemma_round_trip(b: BlockView, rest: Seq<u8>) {
        reveal(spec_read_block);
        reveal(spec_write_block);
        let temporary_count = (b.types.len() - b.input_count) as nat;
        let w1 = spec_length_bytes(b.input_count).unwrap();
        let w2 = spec_length_bytes(temporary_count).unwrap();
        let w3 = spec_write_many::<Reference>(b.types).unwrap();
        let w4 = spec_write_prefixed::<Instruction>(b.instructions).unwrap();
        let r3 = w4 + rest;
        let r2 = w3 + r3;
        let r1 = w2 + r2;
        let s = spec_write_block(b).unwrap() + rest;
        assert(s =~= w1 + r1);
        lemma_parse_length_round_trip(b.input_count, r1);
        lemma_skip_concat(w1, r1);
        lemma_parse_length_round_trip(temporary_count, r2);
        lemma_skip_concat(w2, r2);
        assert(s.skip((w1.len() + w2.len()) as int) =~= r2);
        assert(b.input_count + temporary_count == b.types.len());
        lemma_many_round_trip::<Reference>(b.types, r3);
        assert(s.skip((w1.len() + w2.len() + w3.len()) as int) =~= r3);
        assert(spec_all_round_trip::<Instruction>(b.instructions));
        lemma_prefixed_round_trip::<Instruction>(b.instructions, rest);
    }
}

/// Reading a function body: its result types after their count, the number of blocks other than the entry block, the
/// entry block, and the other blocks.
pub open spec fn spec_read_body(s: Seq<u8>) -> Parsed<BodyView> {
    match spec_read_prefixed::<Reference>(s) {
        Err(e) => Err(e),
        Ok((result_types, n1)) => match spec_parse_length(s.skip(n1 as int)) {
            Err((k, o)) => Err((k, n1 + o)),
            Ok((other_count, n2)) => match spec_read_block(s.skip((n1 + n2) as int)) {
                Err((k, o)) => Err((k, n1 + n2 + o)),
                Ok((entry_block, n3)) => match spec_read_many::<Block>(s.skip((n1 + n2 + n3) as int), other_count) {
                    Err((k, o)) => Err((k, n1 + n2 + n3 + o)),
                    Ok((other_blocks, n4)) => Ok(
                        (BodyView { result_types, entry_block, other_blocks }, n1 + n2 + n3 + n4),
                    ),
                },
            },
        },
    }
}

/// The bytes written for a function body.
pub open spec fn spec_write_body(b: BodyView) -> Option<Seq<u8>> {
    spec_then(
        spec_then(
            spec_then(spec_write_prefixed::<Reference>(b.result_types), spec_length_bytes(b.other_blocks.len())),
            spec_write_block(b.entry_block),
        ),
        spec_write_many::<Block>(b.other_blocks),
    )
}

impl ReadFrom for Body {
    open spec fn spec_read(s: Seq<u8>) -> Parsed<BodyView> {
        spec_read_body(s)
    }

    #[verifier::rlimit(40)]
    #[verifier::spinoff_prover]
    fn read_from(source: &mut Source) -> (r: Result<Body, Error>) {
        let result_types = parse_many_length_encoded::<Reference>(source)?;
        source.check_offset();
        proof {
            lemma_advanced(*old(source), *source);
        }
        let other_block_count = parse_length(source)?;
        source.check_offset();
        proof {
            lemma_advanced(*old(source), *source);
        }
        let entry_block = Block::read_from(source)?;
        source.check_offset();
        proof {
            lemma_advanced(*old(source), *source);
        }
        let other_blocks = read_many::<Block>(source, other_block_count)?;
        Ok(Body::new(result_types, entry_block, other_blocks))
    }
}

impl WriteTo for Body {
    open spec fn spec_write(b: BodyView) -> Option<Seq<u8>> {
        spec_write_body(b)
    }

    fn write_to(&self, out: &mut Destination) -> (r: Result<(), EncodingError>) {
        let ghost start = out@;
        let ghost b = self@;
        let ghost w1 = spec_write_prefixed::<Reference>(b.result_types);
        let ghost w2 = spec_length_bytes(b.other_blocks.len());
        let ghost w3 = spec_write_block(b.entry_block);
        let ghost w4 = spec_write_many::<Block>(b.other_blocks);
        let r1 = LengthPrefixed(self.result_types().as_slice()).write_to(out);
        if r1.is_err() {
            return r1;
        }
        let other_blocks = self.other_blocks();
        let r2 = write_length(other_blocks.len(), out);
        if r2.is_err() {
            proof {
                lemma_prefix_concat(start, w1.unwrap(), out@);
            }
            return r2;
        }
        let ghost after2 = out@;
        let r3 = self.entry_block().write_to(out);
        if r3.is_err() {
            proof {
                assert(after2 =~= start + (w1.unwrap() + w2.unwrap()));
                lemma_prefix_concat(start, w1.unwrap() + w2.unwrap(), out@);
            }
            return r3;
        }
        let ghost after3 = out@;
        let r4 = write_many(other_blocks.as_slice(), out);
        proof {
            assert(after3 =~= start + (w1.unwrap() + w2.unwrap() + w3.unwrap()));
            if r4.is_err() {
                lemma_prefix_concat(start, w1.unwrap() + w2.unwrap() + w3.unwrap(), out@);
            } else {
                assert(out@ =~= start + (w1.unwrap() + w2.unwrap() + w3.unwrap() + w4.unwrap()));
            }
        }
        r4
    }
}

/// Whether reading gives a function body back after writing it: its result types and blocks are read back.
pub open spec fn spec_body_round_trips(b: BodyView) -> bool {
    &&& spec_all_round_trip::<Reference>(b.result_types)
    &&& spec_block_round_trips(b.entry_block)
    &&& spec_all_round_trip::<Block>(b.other_blocks)
}

impl RoundTrip for Body {
    open spec fn spec_round_trips(b: BodyView) -> bool {
        spec_body_round_trips(b)
    }

    #[verifier::spinoff_prover]
    proof fn lemma_round_trip(b: BodyView, rest: Seq<u8>) {
        let w1 = spec_write_prefixed::<Reference>(b.result_types).unwrap();
        let w2 = spec_length_bytes(b.other_blocks.len()).unwrap();
        let w3 = spec_write_block(b.entry_block).unwrap();
        let w4 = spec_write_many::<Block>(b.other_blocks).unwrap();
        let r3 = w4 + rest;
        let r2 = w3 + r3;
        let r1 = w2 + r2;
        let s = spec_write_body(b).unwrap() + rest;
        assert(s =~= w1 + r1);
        lemma_prefixed_round_trip::<Reference>(b.result_types, r1);
        lemma_skip_concat(w1, r1);
        lemma_parse_length_round_trip(b.other_blocks.len(), r2);
        assert(s.skip((w1.len() + w2.len()) as int) =~= r2);
        Block::lemma_round_trip(b.entry_block, r3);
        assert(s.skip((w1.len() + w2.len() + w3.len()) as int) =~= r3);
        lemma_many_round_trip::<Block>(b.other_blocks, rest);
    }
}

/// The tag of a constant, as a negative integer from -24 to -1, is written as a single byte.
proof fn lemma_tag_one_byte(value: i32)
    by (bit_vector)
    requires
        -24 <= value <= -1,
    ensures
        (#[verifier::truncate] (value as u32)) >= 0xFFFF_FFC0,
{
}

/// Writing a value never fails: it is written as one byte for its tag followed by the bytes that the constant holds,
/// and reading those bytes gives the value back, taking exactly them, whatever bytes follow.
pub proof fn lemma_value_written(v: Value, rest: Seq<u8>)
    ensures
        <Value as WriteTo>::spec_write(v) is Some,
        <Value as WriteTo>::spec_write(v).unwrap().len() == 1 + spec_payload(v).len(),
        <Value as WriteTo>::spec_write(v).unwrap().skip(1) == spec_payload(v),
        <Value as ReadFrom>::spec_read(<Value as WriteTo>::spec_write(v).unwrap() + rest) == Ok::<
            (Value, nat),
            (ErrorKind, nat),
        >((v, 1 + spec_payload(v).len())),
{
    let value = spec_constant_tag_value(spec_value_tag(v));
    assert(-24 <= value <= -1);
    lemma_tag_one_byte(value);
    lemma_tag_value_bits(value);
    crate::integer::lemma_var_i28_round_trip(value as u32, Seq::empty());
    <Value as RoundTrip>::lemma_round_trip(v, rest);
    let w = spec_write_value(v);
    assert(w.skip(1) =~= spec_payload(v));
}

/// Values one after the other can always be written: the bytes are those of each value in turn.
pub proof fn lemma_values_written(vs: Seq<Value>)
    ensures
        spec_write_many::<Value>(vs) is Some,
        vs.len() > 0 ==> spec_write_many::<Value>(vs).unwrap() == spec_write_many::<Value>(vs.drop_last()).unwrap()
            + spec_write_value(vs.last()),
    decreases vs.len(),
{
    if vs.len() > 0 {
        lemma_values_written(vs.drop_last());
        lemma_value_written(vs.last(), Seq::empty());
    }
}

/// An instruction fails to be written only when it returns `2^28` values or more, which cannot be counted in 28 bits.
pub proof fn lemma_instruction_written(i: InstructionView)
    ensures
        <Instruction as WriteTo>::spec_write(i) is None <==> (i matches InstructionView::Return(values) && values.len()
            >= 0x1000_0000),
{
    if let InstructionView::Return(values) = i {
        lemma_values_written(values);
    }
}

/// Values one after the other can be written exactly when each of them can.
pub proof fn lemma_write_many_some<T: WriteTo>(vs: Seq<<T as View>::V>)
    ensures
        spec_write_many::<T>(vs) is Some <==> forall|i: int| 0 <= i < vs.len() ==> (#[trigger] T::spec_write(vs[i])) is Some,
    decreases vs.len(),
{
    if vs.len() > 0 {
        lemma_write_many_some::<T>(vs.drop_last());
        assert forall|i: int| 0 <= i < vs.len() - 1 implies vs.drop_last()[i] == vs[i] by {}
        if forall|i: int| 0 <= i < vs.len() ==> (#[trigger] T::spec_write(vs[i])) is Some {
            assert forall|i: int| 0 <= i < vs.drop_last().len() implies (#[trigger] T::spec_write(
                vs.drop_last()[i],
            )) is Some by {
                assert(vs.drop_last()[i] == vs[i]);
            }
        }
    }
}

/// Whether every count in a block fits in 28 bits and every type index in it below `2^27`: those are the only things
/// that keep a block from being written.
pub open spec fn spec_block_fits(b: BlockView) -> bool {
    &&& b.input_count < 0x1000_0000
    &&& b.types.len() - b.input_count < 0x1000_0000
    &&& b.instructions.len() < 0x1000_0000
    &&& forall|i: int| 0 <= i < b.types.len() ==> (#[trigger] b.types[i] matches ReferenceView::Index(index) ==> index
        < 0x0800_0000)
    &&& forall|i: int| 0 <= i < b.instructions.len() ==> (#[trigger] b.instructions[i] matches InstructionView::Return(
        values,
    ) ==> values.len() < 0x1000_0000)
}

/// A block can be written exactly when its counts fit in 28 bits and its type indices are below `2^27`; in particular
/// the values it returns never keep it from being written.
pub proof fn lemma_block_written(b: BlockView)
    requires
        b.input_count <= b.types.len(),
    ensures
        spec_write_block(b) is Some <==> spec_block_fits(b),
{
    reveal(spec_write_block);
    lemma_write_many_some::<Reference>(b.types);
    lemma_write_many_some::<Instruction>(b.instructions);
    let types_ok = forall|i: int| 0 <= i < b.types.len() ==> (#[trigger] <Reference as WriteTo>::spec_write(b.types[i])) is Some;
    let instructions_ok = forall|i: int| 0 <= i < b.instructions.len() ==> (#[trigger] <Instruction as WriteTo>::spec_write(b.instructions[i])) is Some;
    assert(spec_write_block(b) is Some <==> (b.input_count < 0x1000_0000 && b.types.len() - b.input_count < 0x1000_0000
        && types_ok && b.instructions.len() < 0x1000_0000 && instructions_ok));
    if types_ok {
        assert forall|i: int| 0 <= i < b.types.len() implies (#[trigger] b.types[i] matches ReferenceView::Index(index)
            ==> index < 0x0800_0000) by {
            assert(<Reference as WriteTo>::spec_write(b.types[i]) is Some);
        }
    }
    if forall|i: int| 0 <= i < b.types.len() ==> (#[trigger] b.types[i] matches ReferenceView::Index(index) ==> index
        < 0x0800_0000) {
        assert forall|i: int| 0 <= i < b.types.len() implies (#[trigger] <Reference as WriteTo>::spec_write(
            b.types[i],
        )) is Some by {
            assert(b.types[i] matches ReferenceView::Index(index) ==> index < 0x0800_0000);
        }
    }
    if instructions_ok {
        assert forall|i: int| 0 <= i < b.instructions.len() implies (#[trigger] b.instructions[i] matches InstructionView::Return(
            values,
        ) ==> values.len() < 0x1000_0000) by {
            assert(<Instruction as WriteTo>::spec_write(b.instructions[i]) is Some);
            lemma_instruction_written(b.instructions[i]);
        }
    }
    if forall|i: int| 0 <= i < b.instructions.len() ==> (#[trigger] b.instructions[i] matches InstructionView::Return(
        values,
    ) ==> values.len() < 0x1000_0000) {
        assert forall|i: int| 0 <= i < b.instructions.len() implies (#[trigger] <Instruction as WriteTo>::spec_write(
            b.instructions[i],
        )) is Some by {
            lemma_instruction_written(b.instructions[i]);
            assert(b.instructions[i] matches InstructionView::Return(values) ==> values.len() < 0x1000_0000);
        }
    }
}

} // verus!

//! Reading and writing of types and type references.
//!
//! A type reference is written as a signed variable-length integer: a non-negative value is an index into the module's
//! types, and a negative value is the tag of an inline type. Integer types of unusual sizes are written with the `uint`
//! or `sint` tag followed by their bit width.
use vstd::prelude::*;
use crate::binary::parser::Error;
use crate::binary::parser::ErrorKind;
use crate::binary::parser::Parsed;
use crate::binary::parser::ReadFrom;
use crate::binary::parser::Source;
use crate::binary::parser::UnsupportedTypeError;
use crate::binary::parser::spec_parse_var_i28;
use crate::binary::parser::spec_parse_var_u28;
use crate::binary::writer::Destination;
use crate::binary::writer::WriteTo;
use crate::binary::RoundTrip;
use crate::integer::EncodingError;
use crate::integer::VarI28;
use crate::integer::VarU28;
use crate::integer::spec_encode_var_u28;
use crate::integer::spec_encode_var_i28;
use crate::type_system::Float;
use crate::type_system::Integer;
use crate::type_system::IntegerSign;
use crate::type_system::IntegerSize;
use crate::type_system::Reference;
use crate::type_system::ReferenceView;
use crate::type_system::SizedInteger;
use crate::type_system::Type;
use crate::type_system::TypeTag;
use crate::type_system::TypeView;
use crate::type_system::spec_sized_view;
use crate::type_system::spec_tag_bits;
use crate::type_system::spec_tag_byte;
use crate::type_system::spec_valid_type;
use crate::type_system::lemma_i32_as_u32;
use crate::binary::parser::lemma_skip_skip;

verus! {

/// The tag at a position in the list of tags, starting at one.
pub open spec fn spec_tag_at(position: int) -> Option<TypeTag> {
    if position == 1 {
        Some(TypeTag::Bool)
    } else if position == 2 {
        Some(TypeTag::U8)
    } else if position == 3 {
        Some(TypeTag::S8)
    } else if position == 4 {
        Some(TypeTag::U16)
    } else if position == 5 {
        Some(TypeTag::S16)
    } else if position == 6 {
        Some(TypeTag::U32)
    } else if position == 7 {
        Some(TypeTag::S32)
    } else if position == 8 {
        Some(TypeTag::U64)
    } else if position == 9 {
        Some(TypeTag::S64)
    } else if position == 10 {
        Some(TypeTag::U128)
    } else if position == 11 {
        Some(TypeTag::S128)
    } else if position == 12 {
        Some(TypeTag::U256)
    } else if position == 13 {
        Some(TypeTag::S256)
    } else if position == 14 {
        Some(TypeTag::UAddr)
    } else if position == 15 {
        Some(TypeTag::SAddr)
    } else if position == 16 {
        Some(TypeTag::UInt)
    } else if position == 17 {
        Some(TypeTag::SInt)
    } else if position == 18 {
        Some(TypeTag::F16)
    } else if position == 19 {
        Some(TypeTag::F32)
    } else if position == 20 {
        Some(TypeTag::F64)
    } else if position == 21 {
        Some(TypeTag::F128)
    } else if position == 22 {
        Some(TypeTag::F256)
    } else {
        None
    }
}

/// The tag interpreted as a signed integer, given as its 32-bit two's complement representation.
pub open spec fn spec_tag_of_bits(bits: u32) -> Option<TypeTag> {
    spec_tag_at(0x1_0000_0000 - bits)
}

/// Tags and their interpretations as integers correspond one to one.
pub proof fn lemma_tag_of_bits(bits: u32, tag: TypeTag)
    ensures
        spec_tag_of_bits(spec_tag_bits(tag)) == Some(tag),
        spec_tag_of_bits(bits) == Some(tag) ==> spec_tag_bits(tag) == bits,
{
}

/// The type that a tag stands for, for every tag but `uint` and `sint`, which are followed by a bit width.
pub open spec fn spec_tag_type(tag: TypeTag) -> TypeView {
    match tag {
        TypeTag::Bool => TypeView::Integer { signed: false, bits: 1 },
        TypeTag::U8 => TypeView::Integer { signed: false, bits: 8 },
        TypeTag::S8 => TypeView::Integer { signed: true, bits: 8 },
        TypeTag::U16 => TypeView::Integer { signed: false, bits: 16 },
        TypeTag::S16 => TypeView::Integer { signed: true, bits: 16 },
        TypeTag::U32 => TypeView::Integer { signed: false, bits: 32 },
        TypeTag::S32 => TypeView::Integer { signed: true, bits: 32 },
        TypeTag::U64 => TypeView::Integer { signed: false, bits: 64 },
        TypeTag::S64 => TypeView::Integer { signed: true, bits: 64 },
        TypeTag::U128 => TypeView::Integer { signed: false, bits: 128 },
        TypeTag::S128 => TypeView::Integer { signed: true, bits: 128 },
        TypeTag::U256 => TypeView::Integer { signed: false, bits: 256 },
        TypeTag::S256 => TypeView::Integer { signed: true, bits: 256 },
        TypeTag::UAddr => TypeView::Address { signed: false },
        TypeTag::SAddr => TypeView::Address { signed: true },
        TypeTag::UInt => TypeView::Integer { signed: false, bits: 0 },
        TypeTag::SInt => TypeView::Integer { signed: true, bits: 0 },
        TypeTag::F16 => TypeView::Float { bits: 16 },
        TypeTag::F32 => TypeView::Float { bits: 32 },
        TypeTag::F64 => TypeView::Float { bits: 64 },
        TypeTag::F128 => TypeView::Float { bits: 128 },
        TypeTag::F256 => TypeView::Float { bits: 256 },
    }
}

/// Reading a type reference.
pub open spec fn spec_read_reference(s: Seq<u8>) -> Parsed<ReferenceView> {
    match spec_parse_var_i28(s) {
        Err(e) => Err(e),
        Ok((bits, n)) => if bits < 0x8000_0000 {
            Ok((ReferenceView::Index(bits as usize), n))
        } else {
            match spec_tag_of_bits(bits) {
                None => Err((ErrorKind::InvalidTypeTag(bits as i32), 0)),
                Some(tag) => if tag == TypeTag::UInt || tag == TypeTag::SInt {
                    match spec_parse_var_u28(s.skip(n as int)) {
                        Err((k, o)) => Err((k, n + o)),
                        Ok((width, m)) => if 2 <= width <= 256 {
                            Ok((ReferenceView::Inline(TypeView::Integer { signed: tag == TypeTag::SInt, bits: width as nat }), n + m))
                        } else {
                            Err((ErrorKind::InvalidIntegerBitWidth(width), n))
                        },
                    }
                } else {
                    Ok((ReferenceView::Inline(spec_tag_type(tag)), n))
                },
            }
        },
    }
}

/// Reading a type, where a type index is not allowed.
pub open spec fn spec_read_type(s: Seq<u8>) -> Parsed<TypeView> {
    match spec_read_reference(s) {
        Ok((ReferenceView::Inline(t), n)) => Ok((t, n)),
        Ok((ReferenceView::Index(index), _)) => Err(
            (ErrorKind::UnsupportedTypeKind(UnsupportedTypeError { type_index: index }), 0),
        ),
        Err(e) => Err(e),
    }
}

/// The byte written for a tag.
pub open spec fn spec_tag_bytes(tag: TypeTag) -> Seq<u8> {
    seq![spec_tag_byte(tag)]
}

/// The tag written for an integer type of a standard size, and `None` for the other sizes.
pub open spec fn spec_standard_integer_tag(signed: bool, bits: nat) -> Option<TypeTag> {
    if bits == 1 {
        Some(TypeTag::Bool)
    } else if bits == 8 {
        Some(if signed { TypeTag::S8 } else { TypeTag::U8 })
    } else if bits == 16 {
        Some(if signed { TypeTag::S16 } else { TypeTag::U16 })
    } else if bits == 32 {
        Some(if signed { TypeTag::S32 } else { TypeTag::U32 })
    } else if bits == 64 {
        Some(if signed { TypeTag::S64 } else { TypeTag::U64 })
    } else if bits == 128 {
        Some(if signed { TypeTag::S128 } else { TypeTag::U128 })
    } else if bits == 256 {
        Some(if signed { TypeTag::S256 } else { TypeTag::U256 })
    } else {
        None
    }
}

/// The tag written for a floating-point type.
pub open spec fn spec_float_tag(bits: nat) -> TypeTag {
    if bits == 16 {
        TypeTag::F16
    } else if bits == 32 {
        TypeTag::F32
    } else if bits == 64 {
        TypeTag::F64
    } else if bits == 128 {
        TypeTag::F128
    } else {
        TypeTag::F256
    }
}

/// The bytes written for a type.
pub open spec fn spec_write_type(t: TypeView) -> Seq<u8> {
    match t {
        TypeView::Integer { signed, bits } => match spec_standard_integer_tag(signed, bits) {
            Some(tag) => spec_tag_bytes(tag),
            None => spec_tag_bytes(if signed { TypeTag::SInt } else { TypeTag::UInt }) + spec_encode_var_u28(bits as u32),
        },
        TypeView::Address { signed } => spec_tag_bytes(if signed { TypeTag::SAddr } else { TypeTag::UAddr }),
        TypeView::Float { bits } => spec_tag_bytes(spec_float_tag(bits)),
    }
}

/// The bytes written for a type reference: an index is written as a non-negative signed integer, and `None` is given
/// for an index of `2^27` or more, which does not fit in 28 bits.
pub open spec fn spec_write_reference(r: ReferenceView) -> Option<Seq<u8>> {
    match r {
        ReferenceView::Inline(t) => Some(spec_write_type(t)),
        ReferenceView::Index(index) => if index < 0x0800_0000 {
            Some(spec_encode_var_i28(index as u32))
        } else {
            None
        },
    }
}

/// Whether reading gives a type back after writing it: the type is valid.
pub open spec fn spec_type_round_trips(t: TypeView) -> bool {
    spec_valid_type(t)
}

/// Whether reading gives a type reference back after writing it: inline types as for [`spec_type_round_trips`], and
/// indices below `2^27`, all that can be written.
pub open spec fn spec_reference_round_trips(r: ReferenceView) -> bool {
    match r {
        ReferenceView::Inline(t) => spec_type_round_trips(t),
        ReferenceView::Index(index) => index < 0x0800_0000,
    }
}

/// The type that a tag other than `uint` and `sint` stands for.
fn tag_type(tag: TypeTag) -> (r: Type)
    requires
        tag != TypeTag::UInt,
        tag != TypeTag::SInt,
    ensures
        r@ == spec_tag_type(tag),
{
    match tag {
        TypeTag::Bool => Type::from_sized(SizedInteger::boolean()),
        TypeTag::U8 => Type::from_sized(SizedInteger::new(IntegerSign::unsigned(), IntegerSize::i8())),
        TypeTag::S8 => Type::from_sized(SizedInteger::new(IntegerSign::signed(), IntegerSize::i8())),
        TypeTag::U16 => Type::from_sized(SizedInteger::new(IntegerSign::unsigned(), IntegerSize::i16())),
        TypeTag::S16 => Type::from_sized(SizedInteger::new(IntegerSign::signed(), IntegerSize::i16())),
        TypeTag::U32 => Type::from_sized(SizedInteger::new(IntegerSign::unsigned(), IntegerSize::i32())),
        TypeTag::S32 => Type::from_sized(SizedInteger::new(IntegerSign::signed(), IntegerSize::i32())),
        TypeTag::U64 => Type::from_sized(SizedInteger::new(IntegerSign::unsigned(), IntegerSize::i64())),
        TypeTag::S64 => Type::from_sized(SizedInteger::new(IntegerSign::signed(), IntegerSize::i64())),
        TypeTag::U128 => Type::from_sized(SizedInteger::new(IntegerSign::unsigned(), IntegerSize::i128())),
        TypeTag::S128 => Type::from_sized(SizedInteger::new(IntegerSign::signed(), IntegerSize::i128())),
        TypeTag::U256 => Type::from_sized(SizedInteger::new(IntegerSign::unsigned(), IntegerSize::i256())),
        TypeTag::S256 => Type::from_sized(SizedInteger::new(IntegerSign::signed(), IntegerSize::i256())),
        TypeTag::UAddr => Type::Integer(Integer::Address(IntegerSign::unsigned())),
        TypeTag::SAddr => Type::Integer(Integer::Address(IntegerSign::signed())),
        TypeTag::F16 => Type::Float(Float::half()),
        TypeTag::F32 => Type::Float(Float::single()),
        TypeTag::F64 => Type::Float(Float::double()),
        TypeTag::F128 => Type::Float(Float::quadruple()),
        _ => Type::Float(Float::octuple()),
    }
}

impl ReadFrom for Reference {
    open spec fn spec_read(s: Seq<u8>) -> Parsed<ReferenceView> {
        spec_read_reference(s)
    }

    #[verifier::spinoff_prover]
    fn read_from(source: &mut Source) -> (r: Result<Reference, Error>) {
        let start = source.file_offset();
        let tag_value = source.read_var_i28()?;
        let value = tag_value.get();
        proof {
            lemma_i32_as_u32(value);
        }
        if value >= 0 {
            return Ok(Reference::Index(crate::index::Index::new(value as usize)));
        }
        match TypeTag::from_i28(tag_value) {
            None => {
                proof {
                    if let Some(t) = spec_tag_of_bits(tag_value@) {
                        lemma_tag_of_bits(tag_value@, t);
                    }
                }
                Err(Error { kind: ErrorKind::InvalidTypeTag(value), file_offset: start })
            },
            Some(tag) => {
                proof {
                    lemma_tag_of_bits(tag_value@, tag);
                }
                if tag == TypeTag::UInt || tag == TypeTag::SInt {
                    source.check_offset();
                    proof {
                        let n = (source.spec_offset() - old(source).spec_offset()) as int;
                        lemma_skip_skip(old(source).spec_bytes(), old(source).spec_offset() as int, n);
                    }
                    let size_start = source.file_offset();
                    let width = source.read_var_u28()?;
                    match IntegerSize::from_u28(width) {
                        Ok(size) => {
                            let sign = if tag == TypeTag::SInt {
                                IntegerSign::signed()
                            } else {
                                IntegerSign::unsigned()
                            };
                            Ok(Reference::Inline(Type::from_sized(SizedInteger::new(sign, size))))
                        },
                        Err(_) => Err(
                            Error { kind: ErrorKind::InvalidIntegerBitWidth(width.get()), file_offset: size_start },
                        ),
                    }
                } else {
                    Ok(Reference::Inline(tag_type(tag)))
                }
            },
        }
    }
}

impl ReadFrom for Type {
    open spec fn spec_read(s: Seq<u8>) -> Parsed<TypeView> {
        spec_read_type(s)
    }

    #[verifier::spinoff_prover]
    fn read_from(source: &mut Source) -> (r: Result<Type, Error>) {
        let start = source.file_offset();
        match Reference::read_from(source)? {
            Reference::Inline(ty) => Ok(ty),
            Reference::Index(index) => Err(
                Error {
                    kind: ErrorKind::UnsupportedTypeKind(UnsupportedTypeError { type_index: index.get() }),
                    file_offset: start,
                },
            ),
        }
    }
}

/// Writes the byte of a tag.
fn write_tag(tag: TypeTag, out: &mut Destination)
    ensures
        final(out)@ == old(out)@ + spec_tag_bytes(tag),
{
    out.write_byte(tag.to_u8());
    assert(out@ =~= old(out)@ + spec_tag_bytes(tag));
}

/// Writes a sized integer type.
fn write_sized(ty: SizedInteger, out: &mut Destination)
    ensures
        final(out)@ == old(out)@ + spec_write_type(spec_sized_view(ty)),
{
    match ty.size() {
        None => write_tag(TypeTag::Bool, out),
        Some(size) => {
            let signed = ty.sign().unwrap().is_signed();
            let width = size.bit_width();
            if width == 8 {
                write_tag(if signed { TypeTag::S8 } else { TypeTag::U8 }, out);
            } else if width == 16 {
                write_tag(if signed { TypeTag::S16 } else { TypeTag::U16 }, out);
            } else if width == 32 {
                write_tag(if signed { TypeTag::S32 } else { TypeTag::U32 }, out);
            } else if width == 64 {
                write_tag(if signed { TypeTag::S64 } else { TypeTag::U64 }, out);
            } else if width == 128 {
                write_tag(if signed { TypeTag::S128 } else { TypeTag::U128 }, out);
            } else if width == 256 {
                write_tag(if signed { TypeTag::S256 } else { TypeTag::U256 }, out);
            } else {
                write_tag(if signed { TypeTag::SInt } else { TypeTag::UInt }, out);
                out.write_var_u28(VarU28::from_u16(width));
                assert(out@ =~= old(out)@ + spec_write_type(spec_sized_view(ty)));
            }
        },
    }
}

impl WriteTo for Type {
    open spec fn spec_write(t: TypeView) -> Option<Seq<u8>> {
        Some(spec_write_type(t))
    }

    fn write_to(&self, out: &mut Destination) -> (r: Result<(), EncodingError>) {
        match self {
            Type::Integer(Integer::Sized(ty)) => write_sized(*ty, out),
            Type::Integer(Integer::Address(sign)) => write_tag(
                if sign.is_signed() {
                    TypeTag::SAddr
                } else {
                    TypeTag::UAddr
                },
                out,
            ),
            Type::Float(f) => {
                let width = f.bit_width();
                let tag = if width == 16 {
                    TypeTag::F16
                } else if width == 32 {
                    TypeTag::F32
                } else if width == 64 {
                    TypeTag::F64
                } else if width == 128 {
                    TypeTag::F128
                } else {
                    TypeTag::F256
                };
                write_tag(tag, out);
            },
        }
        Ok(())
    }
}

impl WriteTo for Reference {
    open spec fn spec_write(r: ReferenceView) -> Option<Seq<u8>> {
        spec_write_reference(r)
    }

    fn write_to(&self, out: &mut Destination) -> (r: Result<(), EncodingError>) {
        match self {
            Reference::Index(index) => {
                let value = index.get();
                if value < 0x0800_0000 {
                    out.write_var_i28(VarI28::new(value as i32));
                    Ok(())
                } else {
                    assert(old(out)@.is_prefix_of(out@)) by {
                        assert(out@.subrange(0, old(out)@.len() as int) =~= old(out)@);
                    }
                    Err(EncodingError)
                }
            },
            Reference::Inline(ty) => ty.write_to(out),
        }
    }
}

/// A tag is read back from its byte, whatever bytes follow it.
proof fn lemma_tag_round_trip(tag: TypeTag, rest: Seq<u8>)
    ensures
        spec_parse_var_i28(spec_tag_bytes(tag) + rest) == Ok::<(u32, nat), (ErrorKind, nat)>((spec_tag_bits(tag), 1)),
        spec_tag_bits(tag) >= 0x8000_0000,
        spec_tag_of_bits(spec_tag_bits(tag)) == Some(tag),
{
    crate::type_system::lemma_tag_bytes_are_negative_integers(tag);
    lemma_tag_of_bits(0, tag);
    let s = spec_tag_bytes(tag) + rest;
    let b = seq![spec_tag_byte(tag)];
    assert(s[0] == b[0]);
    assert(crate::integer::spec_le_u32(s, 1) == crate::integer::spec_le_u32(b, 1));
}

/// A type is read back after it is written, whatever bytes follow it.
proof fn lemma_type_round_trip(t: TypeView, rest: Seq<u8>)
    requires
        spec_type_round_trips(t),
    ensures
        spec_read_reference(spec_write_type(t) + rest) == Ok::<(ReferenceView, nat), (ErrorKind, nat)>(
            (ReferenceView::Inline(t), spec_write_type(t).len()),
        ),
{
    match t {
        TypeView::Integer { signed, bits } => match spec_standard_integer_tag(signed, bits) {
            Some(tag) => {
                lemma_tag_round_trip(tag, rest);
            },
            None => {
                let tag = if signed { TypeTag::SInt } else { TypeTag::UInt };
                let w = spec_encode_var_u28(bits as u32);
                lemma_tag_round_trip(tag, w + rest);
                let s = spec_write_type(t) + rest;
                assert(s =~= spec_tag_bytes(tag) + (w + rest));
                assert(s.skip(1) =~= w + rest);
                crate::integer::lemma_var_u28_round_trip(bits as u32, rest);
            },
        },
        TypeView::Address { signed } => {
            lemma_tag_round_trip(if signed { TypeTag::SAddr } else { TypeTag::UAddr }, rest);
        },
        TypeView::Float { bits } => {
            lemma_tag_round_trip(spec_float_tag(bits), rest);
        },
    }
}

impl RoundTrip for Type {
    open spec fn spec_round_trips(t: TypeView) -> bool {
        spec_type_round_trips(t)
    }

    #[verifier::spinoff_prover]
    proof fn lemma_round_trip(t: TypeView, rest: Seq<u8>) {
        lemma_type_round_trip(t, rest);
    }
}

impl RoundTrip for Reference {
    open spec fn spec_round_trips(r: ReferenceView) -> bool {
        spec_reference_round_trips(r)
    }

    #[verifier::spinoff_prover]
    proof fn lemma_round_trip(r: ReferenceView, rest: Seq<u8>) {
        match r {
            ReferenceView::Inline(t) => lemma_type_round_trip(t, rest),
            ReferenceView::Index(index) => {
                let x = index as u32;
                crate::integer::lemma_var_i28_round_trip(x, rest);
            },
        }
    }
}

} // verus!

//! Provides a model of the IL4IL type system.
use vstd::prelude::*;
use vstd::string::StringExecFns;
use crate::integer::{VarI28, VarU28};

verus! {

/// Tag that reprsents a [`Type`]. Note that all type tags correspond to negative numbers in the IL4IL
/// variable-length signed integer encoding, allowing positive values to represent indices into a
/// module's type section.
///
/// Common types (bool, s32, u32, f32, s64, f64, etc.) are represented as special cases for efficiency.
#[derive(Clone, Copy, Debug, PartialEq, Eq, Structural, Hash)]
pub enum TypeTag {
    Bool,
    U8,
    S8,
    U16,
    S16,
    U32,
    S32,
    U64,
    S64,
    U128,
    S128,
    U256,
    S256,
    UAddr,
    SAddr,
    UInt,
    SInt,
    F16,
    F32,
    F64,
    F128,
    F256,
}

/// The position of a tag in the list of tags, starting at one: the tag is written as the byte `256 - 2 * position`, which
/// is read as the signed integer `-position`.
pub open spec fn spec_tag_position(tag: TypeTag) -> u8 {
    match tag {
        TypeTag::Bool => 1,
        TypeTag::U8 => 2,
        TypeTag::S8 => 3,
        TypeTag::U16 => 4,
        TypeTag::S16 => 5,
        TypeTag::U32 => 6,
        TypeTag::S32 => 7,
        TypeTag::U64 => 8,
        TypeTag::S64 => 9,
        TypeTag::U128 => 10,
        TypeTag::S128 => 11,
        TypeTag::U256 => 12,
        TypeTag::S256 => 13,
        TypeTag::UAddr => 14,
        TypeTag::SAddr => 15,
        TypeTag::UInt => 16,
        TypeTag::SInt => 17,
        TypeTag::F16 => 18,
        TypeTag::F32 => 19,
        TypeTag::F64 => 20,
        TypeTag::F128 => 21,
        TypeTag::F256 => 22,
    }
}

/// The byte that a tag is written as.
pub open spec fn spec_tag_byte(tag: TypeTag) -> u8 {
    (256 - 2 * spec_tag_position(tag)) as u8
}

/// The negative integer that a tag is interpreted as, in 32-bit two's complement representation.
pub open spec fn spec_tag_bits(tag: TypeTag) -> u32 {
    (0x1_0000_0000 - spec_tag_position(tag)) as u32
}

proof fn lemma_tag_byte_read(k: u8, b: u8)
    by (bit_vector)
    requires
        1 <= k <= 22,
        b == (256 - 2 * k) as u8,
    ensures
        b & 1 == 0,
        ({
            let all = (b as u32) | (0u32 << 8u32) | (0u32 << 16u32) | (0u32 << 24u32);
            if all & 0x80 != 0 {
                (all >> 1u32) | 0xFFFF_FF80
            } else {
                all >> 1u32
            }
        }) == (0x1_0000_0000 - k) as u32,
{
}

/// Every type tag, written as its byte, is read as a single-byte negative variable-length integer whose value is the tag's
/// interpretation.
pub proof fn lemma_tag_bytes_are_negative_integers(tag: TypeTag)
    ensures
        crate::integer::spec_read_var_i28(seq![spec_tag_byte(tag)]) == Ok::<Result<(u32, nat), u8>, ()>(
            Ok((spec_tag_bits(tag), 1)),
        ),
        spec_tag_bits(tag) >= 0x8000_0000,
        crate::integer::fits_i28(spec_tag_bits(tag)),
{
    lemma_tag_byte_read(spec_tag_position(tag), spec_tag_byte(tag));
}

/// The 32-bit two's complement representation of a signed integer.
pub proof fn lemma_i32_as_u32(v: i32)
    by (bit_vector)
    ensures
        v >= 0 ==> (v as u32) as int == v as int,
        v < 0 ==> (v as u32) as int == v as int + 0x1_0000_0000,
{
}

impl TypeTag {
    /// The position of the tag, starting at one.
    fn position(self) -> (r: u8)
        ensures
            r == spec_tag_position(self),
    {
        match self {
            TypeTag::Bool => 1,
            TypeTag::U8 => 2,
            TypeTag::S8 => 3,
            TypeTag::U16 => 4,
            TypeTag::S16 => 5,
            TypeTag::U32 => 6,
            TypeTag::S32 => 7,
            TypeTag::U64 => 8,
            TypeTag::S64 => 9,
            TypeTag::U128 => 10,
            TypeTag::S128 => 11,
            TypeTag::U256 => 12,
            TypeTag::S256 => 13,
            TypeTag::UAddr => 14,
            TypeTag::SAddr => 15,
            TypeTag::UInt => 16,
            TypeTag::SInt => 17,
            TypeTag::F16 => 18,
            TypeTag::F32 => 19,
            TypeTag::F64 => 20,
            TypeTag::F128 => 21,
            TypeTag::F256 => 22,
        }
    }

    /// Every type tag.
    pub fn all() -> (r: Vec<TypeTag>)
        ensures
            r@.len() == 22,
            forall|i: int| 0 <= i < 22 ==> spec_tag_position(#[trigger] r@[i]) == i + 1,
    {
        let mut v = Vec::new();
        v.push(TypeTag::Bool);
        v.push(TypeTag::U8);
        v.push(TypeTag::S8);
        v.push(TypeTag::U16);
        v.push(TypeTag::S16);
        v.push(TypeTag::U32);
        v.push(TypeTag::S32);
        v.push(TypeTag::U64);
        v.push(TypeTag::S64);
        v.push(TypeTag::U128);
        v.push(TypeTag::S128);
        v.push(TypeTag::U256);
        v.push(TypeTag::S256);
        v.push(TypeTag::UAddr);
        v.push(TypeTag::SAddr);
        v.push(TypeTag::UInt);
        v.push(TypeTag::SInt);
        v.push(TypeTag::F16);
        v.push(TypeTag::F32);
        v.push(TypeTag::F64);
        v.push(TypeTag::F128);
        v.push(TypeTag::F256);
        v
    }

    /// Gets the tag written as the given byte.
    pub fn new(tag: u8) -> (r: Option<Self>)
        ensures
            r matches Some(t) ==> spec_tag_byte(t) == tag,
            r is None ==> forall|t: TypeTag| spec_tag_byte(t) != tag,
    {
        match tag {
            0xFE => Some(TypeTag::Bool),
            0xFC => Some(TypeTag::U8),
            0xFA => Some(TypeTag::S8),
            0xF8 => Some(TypeTag::U16),
            0xF6 => Some(TypeTag::S16),
            0xF4 => Some(TypeTag::U32),
            0xF2 => Some(TypeTag::S32),
            0xF0 => Some(TypeTag::U64),
            0xEE => Some(TypeTag::S64),
            0xEC => Some(TypeTag::U128),
            0xEA => Some(TypeTag::S128),
            0xE8 => Some(TypeTag::U256),
            0xE6 => Some(TypeTag::S256),
            0xE4 => Some(TypeTag::UAddr),
            0xE2 => Some(TypeTag::SAddr),
            0xE0 => Some(TypeTag::UInt),
            0xDE => Some(TypeTag::SInt),
            0xDC => Some(TypeTag::F16),
            0xDA => Some(TypeTag::F32),
            0xD8 => Some(TypeTag::F64),
            0xD6 => Some(TypeTag::F128),
            0xD4 => Some(TypeTag::F256),
            _ => None,
        }
    }

    /// Gets the tag interpreted as the given signed integer.
    pub fn from_i28(tag: VarI28) -> (r: Option<Self>)
        ensures
            r matches Some(t) ==> spec_tag_bits(t) == tag@,
            r is None ==> forall|t: TypeTag| spec_tag_bits(t) != tag@,
    {
        let value = tag.get();
        proof {
            lemma_i32_as_u32(value);
        }
        match value {
            -1 => Some(TypeTag::Bool),
            -2 => Some(TypeTag::U8),
            -3 => Some(TypeTag::S8),
            -4 => Some(TypeTag::U16),
            -5 => Some(TypeTag::S16),
            -6 => Some(TypeTag::U32),
            -7 => Some(TypeTag::S32),
            -8 => Some(TypeTag::U64),
            -9 => Some(TypeTag::S64),
            -10 => Some(TypeTag::U128),
            -11 => Some(TypeTag::S128),
            -12 => Some(TypeTag::U256),
            -13 => Some(TypeTag::S256),
            -14 => Some(TypeTag::UAddr),
            -15 => Some(TypeTag::SAddr),
            -16 => Some(TypeTag::UInt),
            -17 => Some(TypeTag::SInt),
            -18 => Some(TypeTag::F16),
            -19 => Some(TypeTag::F32),
            -20 => Some(TypeTag::F64),
            -21 => Some(TypeTag::F128),
            -22 => Some(TypeTag::F256),
            _ => None,
        }
    }

    /// The signed integer that this tag is interpreted as.
    pub fn into_i28(self) -> (r: VarI28)
        ensures
            r@ == spec_tag_bits(self),
    {
        let p = self.position();
        let v = 0 - (p as i32);
        proof {
            lemma_i32_as_u32(v);
        }
        VarI28::new(v)
    }

    /// The byte that this tag is written as.
    pub fn to_u8(self) -> (r: u8)
        ensures
            r == spec_tag_byte(self),
    {
        let p = self.position();
        (256 - 2 * (p as u32)) as u8
    }
}


/// The error type used when a negative variable-length integer does not correspond to the encoding of any type.
#[derive(Clone, Copy, Debug, PartialEq, Eq, Structural)]
pub struct InvalidTagError(pub VarI28);

/// The error type used for invalid integer bit widths.
#[derive(Clone, Copy, Debug, PartialEq, Eq, Structural)]
pub struct InvalidBitWidthError(pub VarU28);

impl InvalidTagError {
    /// The message describing this error.
    pub fn message(&self) -> (r: String)
        ensures
            r@ == crate::text::spec_signed_decimal(VarI28::spec_value(self.0@) as int) + " is not a valid type tag"@,
    {
        let mut r = self.0.to_text();
        crate::text::push_str(&mut r, " is not a valid type tag");
        r
    }
}

impl InvalidBitWidthError {
    /// The message describing this error.
    pub fn message(&self) -> (r: String)
        ensures
            r@ == crate::text::spec_decimal(self.0@ as nat) + " is not a supported integer bit width"@,
    {
        let mut r = self.0.to_text();
        crate::text::push_str(&mut r, " is not a supported integer bit width");
        r
    }
}

impl TypeTag {
    /// Gets the tag interpreted as the given signed integer, failing with an [`InvalidTagError`] if there is none.
    pub fn try_from_i28(value: VarI28) -> (r: Result<Self, InvalidTagError>)
        ensures
            r matches Ok(t) ==> spec_tag_bits(t) == value@,
            r matches Err(e) ==> e.0 == value && forall|t: TypeTag| spec_tag_bits(t) != value@,
    {
        match Self::from_i28(value) {
            Some(t) => Ok(t),
            None => Err(InvalidTagError(value)),
        }
    }
}

/// Represents the integer sizes supported by IL4IL.
///
/// Note that an integer size of 1 is not allowed, and is instead represented by [`SizedInteger::boolean`].
#[derive(Clone, Copy, Debug, PartialEq, Eq, Structural, Hash, PartialOrd, Ord)]
pub struct IntegerSize {
    /// The bit width minus one.
    bits: u8,
}

impl View for IntegerSize {
    type V = nat;

    /// The bit width.
    closed spec fn view(&self) -> nat {
        (self.bits + 1) as nat
    }
}

impl IntegerSize {
    #[verifier::type_invariant]
    spec fn valid(&self) -> bool {
        self.bits >= 1
    }

    /// Represents an integer with a size of two bits.
    pub fn min() -> (r: Self)
        ensures
            r@ == 2,
    {
        IntegerSize { bits: 1 }
    }

    /// The size of a byte.
    pub fn i8() -> (r: Self)
        ensures
            r@ == 8,
    {
        IntegerSize { bits: 7 }
    }

    /// The size of a 16-bit integer.
    pub fn i16() -> (r: Self)
        ensures
            r@ == 16,
    {
        IntegerSize { bits: 15 }
    }

    /// The size of a 32-bit integer.
    pub fn i32() -> (r: Self)
        ensures
            r@ == 32,
    {
        IntegerSize { bits: 31 }
    }

    /// The size of a 64-bit integer.
    pub fn i64() -> (r: Self)
        ensures
            r@ == 64,
    {
        IntegerSize { bits: 63 }
    }

    /// The size of a 128-bit integer.
    pub fn i128() -> (r: Self)
        ensures
            r@ == 128,
    {
        IntegerSize { bits: 127 }
    }

    /// The size of a 256-bit integer, the maximum allowed bit width of fixed width integers in IL4IL.
    pub fn i256() -> (r: Self)
        ensures
            r@ == 256,
    {
        IntegerSize { bits: 255 }
    }

    /// Creates an integer size from a bit width that is greater than 1.
    pub fn new_unchecked(bit_width: u8) -> (r: Self)
        requires
            bit_width >= 2,
        ensures
            r@ == bit_width,
    {
        IntegerSize { bits: bit_width - 1 }
    }

    /// Creates an integer size from a bit width. Returns `None` if the bit width is less than two.
    pub fn new(bit_width: u8) -> (r: Option<Self>)
        ensures
            bit_width >= 2 ==> (r matches Some(size) && size@ == bit_width),
            bit_width < 2 ==> r is None,
    {
        if bit_width >= 2 {
            Some(Self::new_unchecked(bit_width))
        } else {
            None
        }
    }

    /// Creates an integer size from a bit width, which must be from 2 to 256.
    pub fn from_u28(bit_width: VarU28) -> (r: Result<Self, InvalidBitWidthError>)
        ensures
            2 <= bit_width@ <= 256 ==> (r matches Ok(size) && size@ == bit_width@),
            !(2 <= bit_width@ <= 256) ==> r == Err::<IntegerSize, InvalidBitWidthError>(InvalidBitWidthError(bit_width)),
    {
        let value = bit_width.get();
        if value == 256 {
            return Ok(Self::i256());
        }
        if value > 256 {
            return Err(InvalidBitWidthError(bit_width));
        }
        match Self::new(value as u8) {
            Some(size) => Ok(size),
            None => Err(InvalidBitWidthError(bit_width)),
        }
    }

    /// Gets the number of bits needed to contain an integer of this size.
    pub fn bit_width(self) -> (r: u16)
        ensures
            r == self@,
            2 <= r <= 256,
    {
        proof {
            use_type_invariant(&self);
        }
        (self.bits as u16) + 1
    }
}

/// Indicates whether an integer type is signed or unsigned.
#[derive(Clone, Copy, Debug, PartialEq, Eq, Structural, Hash)]
pub struct IntegerSign {
    signed: bool,
}

impl IntegerSign {
    /// Indicates that the integer type is signed, with the most significant bit of a given value indicating the sign of the integer.
    pub fn signed() -> (r: Self)
        ensures
            r.spec_is_signed(),
    {
        IntegerSign { signed: true }
    }

    /// Indicates that the integer type is unsigned, all values are zero or positive.
    pub fn unsigned() -> (r: Self)
        ensures
            !r.spec_is_signed(),
    {
        IntegerSign { signed: false }
    }

    /// Whether the sign indicates a signed integer, in specifications.
    pub closed spec fn spec_is_signed(self) -> bool {
        self.signed
    }

    /// Two signs are the same exactly when both are signed or both are unsigned.
    pub proof fn lemma_eq(self, other: IntegerSign)
        ensures
            (self == other) <==> (self.spec_is_signed() == other.spec_is_signed()),
    {
    }

    /// Whether the sign indicates a signed integer.
    pub fn is_signed(self) -> (r: bool)
        ensures
            r == self.spec_is_signed(),
    {
        self.signed
    }

    /// The character used for this sign in type names, `s` or `u`.
    pub fn letter(self) -> (r: char)
        ensures
            r == (if self.spec_is_signed() { 's' } else { 'u' }),
    {
        if self.signed {
            's'
        } else {
            'u'
        }
    }
}

/// Represents the set of integer types with a fixed bit width supported by IL4IL.
///
/// This includes the 1-bit `bool` type, and the signed (`s2`..`s256`) and unsigned (`u2`..`u256`) integer types.
#[derive(Clone, Copy, Debug, PartialEq, Eq, Structural, Hash)]
pub struct SizedInteger {
    sign: IntegerSign,
    size: Option<IntegerSize>,
}

impl SizedInteger {
    #[verifier::type_invariant]
    spec fn valid(&self) -> bool {
        self.size is None ==> !self.sign.spec_is_signed()
    }

    /// The size of the integer type, or `None` for `bool`, in specifications.
    pub closed spec fn spec_size(self) -> Option<IntegerSize> {
        self.size
    }

    /// The sign of the integer type, or `None` for `bool`, in specifications.
    pub closed spec fn spec_sign(self) -> Option<IntegerSign> {
        if self.size is None {
            None
        } else {
            Some(self.sign)
        }
    }

    /// The 1-bit `bool` type, where a value of `1` represents true, and `0` represents false.
    pub fn boolean() -> (r: Self)
        ensures
            r.spec_size() is None,
            r.spec_sign() is None,
    {
        SizedInteger { sign: IntegerSign::unsigned(), size: None }
    }

    /// Creates an integer type of a fixed size.
    pub fn new(sign: IntegerSign, size: IntegerSize) -> (r: Self)
        ensures
            r.spec_size() == Some(size),
            r.spec_sign() == Some(sign),
    {
        SizedInteger { sign, size: Some(size) }
    }

    /// Attempts to retrieve the size of this integer, returning `None` if this integer is a `bool`.
    pub fn size(self) -> (r: Option<IntegerSize>)
        ensures
            r == self.spec_size(),
    {
        self.size
    }

    /// Gets the size of this integer type, in bits.
    pub fn bit_width(self) -> (r: u16)
        ensures
            match self.spec_size() {
                Some(size) => r == size@,
                None => r == 1,
            },
    {
        match self.size {
            Some(size) => size.bit_width(),
            None => 1,
        }
    }

    /// Indicates whether this integer type is the `bool` type.
    pub fn is_boolean(self) -> (r: bool)
        ensures
            r == (self.spec_size() is None),
    {
        self.size.is_none()
    }

    /// Gets whether the integer type is signed or unsigned, or `None` if the integer type is a `bool`.
    pub fn sign(self) -> (r: Option<IntegerSign>)
        ensures
            r == self.spec_sign(),
            r is Some <==> self.spec_size() is Some,
    {
        if self.size.is_none() {
            None
        } else {
            Some(self.sign)
        }
    }
}

/// Represents the set of all integer types.
///
/// The values of integers in IL4IL are in two's complement representation.
#[derive(Clone, Copy, Debug, PartialEq, Eq, Structural, Hash)]
pub enum Integer {
    /// An integer type with a fixed bit width.
    Sized(SizedInteger),
    /// An integer with the same bit width as a raw pointer's address.
    Address(IntegerSign),
}

/// The number of bits of a floating-point type of the given kind, from `1` for `f16` to `5` for `f256`.
pub open spec fn spec_float_bits(kind: u8) -> nat {
    if kind == 1 {
        16
    } else if kind == 2 {
        32
    } else if kind == 3 {
        64
    } else if kind == 4 {
        128
    } else {
        256
    }
}

/// Represents the floating-point types supported by IL4IL.
#[derive(Clone, Copy, Debug, PartialEq, Eq, Structural, Hash, PartialOrd, Ord)]
pub struct Float {
    kind: u8,
}

impl View for Float {
    type V = nat;

    /// The number of bits of the floating-point type.
    closed spec fn view(&self) -> nat {
        spec_float_bits(self.kind)
    }
}

impl Float {
    #[verifier::type_invariant]
    spec fn valid(&self) -> bool {
        1 <= self.kind <= 5
    }

    /// The 16-bit floating-point type.
    pub fn half() -> (r: Self)
        ensures
            r@ == 16,
    {
        Float { kind: 1 }
    }

    /// The 32-bit floating-point type, also called single precision.
    pub fn single() -> (r: Self)
        ensures
            r@ == 32,
    {
        Float { kind: 2 }
    }

    /// The 64-bit floating-point type, also called double precision.
    pub fn double() -> (r: Self)
        ensures
            r@ == 64,
    {
        Float { kind: 3 }
    }

    /// The 128-bit floating-point type.
    pub fn quadruple() -> (r: Self)
        ensures
            r@ == 128,
    {
        Float { kind: 4 }
    }

    /// The 256-bit floating-point type.
    pub fn octuple() -> (r: Self)
        ensures
            r@ == 256,
    {
        Float { kind: 5 }
    }

    /// Gets the number of bits needed to contain floating-point values of this type.
    pub fn bit_width(self) -> (r: u16)
        ensures
            r == self@,
            r == 16 || r == 32 || r == 64 || r == 128 || r == 256,
    {
        proof {
            use_type_invariant(&self);
        }
        let k = self.kind;
        assert((2u16 << ((k + 2) as u16)) == spec_float_bits(k)) by (bit_vector)
            requires
                1 <= k <= 5,
        ;
        2u16 << ((k + 2) as u16)
    }

    /// Gets the number of bytes needed to contain floating-point values of this type.
    pub fn byte_width(self) -> (r: u8)
        ensures
            r * 8 == self@,
    {
        proof {
            use_type_invariant(&self);
        }
        let k = self.kind;
        assert((2u8 << ((k - 1) as u8)) * 8 == spec_float_bits(k)) by (bit_vector)
            requires
                1 <= k <= 5,
        ;
        2u8 << ((k - 1) as u8)
    }
}

/// Represents the set of all types representable in IL4IL.
#[derive(Clone, Copy, Debug, PartialEq, Eq, Structural, Hash)]
pub enum Type {
    Integer(Integer),
    Float(Float),
}

impl Type {
    /// The type of a sized integer.
    pub fn from_sized(ty: SizedInteger) -> (r: Self)
        ensures
            r == Type::Integer(Integer::Sized(ty)),
    {
        Type::Integer(Integer::Sized(ty))
    }
}

/// An IL4IL type, or an index to an IL4IL type.
#[derive(Clone, Copy, Debug, PartialEq, Eq)]
pub enum Reference {
    Inline(Type),
    Index(crate::index::Type),
}

/// A type, in specifications: an integer type with its sign and bit width (`bool` being the unsigned 1-bit integer type),
/// an address-sized integer type with its sign, or a floating-point type with its bit width.
pub enum TypeView {
    Integer { signed: bool, bits: nat },
    Address { signed: bool },
    Float { bits: nat },
}

/// A sized integer type, in specifications.
pub open spec fn spec_sized_view(ty: SizedInteger) -> TypeView {
    match ty.spec_size() {
        None => TypeView::Integer { signed: false, bits: 1 },
        Some(size) => TypeView::Integer { signed: ty.spec_sign().unwrap().spec_is_signed(), bits: size@ },
    }
}

/// Whether a type in specifications is that of some [`Type`]: integer types have from 1 to 256 bits, `bool` is unsigned,
/// and floating-point types have 16, 32, 64, 128, or 256 bits.
pub open spec fn spec_valid_type(t: TypeView) -> bool {
    match t {
        TypeView::Integer { signed, bits } => 1 <= bits <= 256 && (bits == 1 ==> !signed),
        TypeView::Address { .. } => true,
        TypeView::Float { bits } => bits == 16 || bits == 32 || bits == 64 || bits == 128 || bits == 256,
    }
}

impl View for Type {
    type V = TypeView;

    open spec fn view(&self) -> TypeView {
        match self {
            Type::Integer(Integer::Sized(ty)) => spec_sized_view(*ty),
            Type::Integer(Integer::Address(sign)) => TypeView::Address { signed: sign.spec_is_signed() },
            Type::Float(f) => TypeView::Float { bits: f@ },
        }
    }
}

impl Type {
    /// Every type has a valid view.
    pub fn check_valid(&self)
        ensures
            spec_valid_type(self@),
    {
        match self {
            Type::Integer(Integer::Sized(ty)) => {
                proof {
                    use_type_invariant(ty);
                }
                match ty.size {
                    Some(size) => {
                        let _width = size.bit_width();
                    },
                    None => {},
                }
            },
            Type::Integer(Integer::Address(_)) => {},
            Type::Float(f) => {
                let _width = f.bit_width();
            },
        }
    }
}

/// A type or a type index, in specifications.
pub enum ReferenceView {
    Inline(TypeView),
    Index(usize),
}

impl View for Reference {
    type V = ReferenceView;

    open spec fn view(&self) -> ReferenceView {
        match self {
            Reference::Inline(ty) => ReferenceView::Inline(ty@),
            Reference::Index(index) => ReferenceView::Index(index@),
        }
    }
}

/// The textual representation of a type: `boolean`, `s` or `u` followed by the bit width, `saddr` or `uaddr`, or `f`
/// followed by the bit width.
pub open spec fn spec_type_text(t: TypeView) -> Seq<char> {
    match t {
        TypeView::Integer { signed, bits } => if bits == 1 {
            "boolean"@
        } else {
            seq![if signed { 's' } else { 'u' }] + crate::text::spec_decimal(bits)
        },
        TypeView::Address { signed } => seq![if signed { 's' } else { 'u' }] + "addr"@,
        TypeView::Float { bits } => seq!['f'] + crate::text::spec_decimal(bits),
    }
}

/// The textual representation of a type reference: the type, or `#` followed by the index.
pub open spec fn spec_reference_text(r: ReferenceView) -> Seq<char> {
    match r {
        ReferenceView::Inline(t) => spec_type_text(t),
        ReferenceView::Index(i) => seq!['#'] + crate::text::spec_decimal(i as nat),
    }
}

impl Type {
    /// The textual representation of the type.
    pub fn to_text(&self) -> (r: String)
        ensures
            r@ == spec_type_text(self@),
    {
        match self {
            Type::Integer(Integer::Sized(ty)) => match ty.size() {
                None => {
                    let r = String::from_str("boolean");
                    proof {
                        reveal_strlit("boolean");
                    }
                    r
                },
                Some(size) => {
                    let mut r = String::new();
                    crate::text::push_char(&mut r, ty.sign().unwrap().letter());
                    crate::text::push_decimal(&mut r, size.bit_width() as u64);
                    assert(r@ =~= spec_type_text(self@));
                    r
                },
            },
            Type::Integer(Integer::Address(sign)) => {
                let mut r = String::new();
                crate::text::push_char(&mut r, sign.letter());
                crate::text::push_str(&mut r, "addr");
                assert(r@ =~= spec_type_text(self@));
                r
            },
            Type::Float(f) => {
                let mut r = String::new();
                crate::text::push_char(&mut r, 'f');
                crate::text::push_decimal(&mut r, f.bit_width() as u64);
                assert(r@ =~= spec_type_text(self@));
                r
            },
        }
    }
}

impl Reference {
    /// The textual representation of the type reference.
    pub fn to_text(&self) -> (r: String)
        ensures
            r@ == spec_reference_text(self@),
    {
        match self {
            Reference::Inline(ty) => ty.to_text(),
            Reference::Index(index) => {
                let mut r = String::new();
                crate::text::push_char(&mut r, '#');
                crate::text::push_decimal(&mut r, index.get() as u64);
                assert(r@ =~= spec_reference_text(self@));
                r
            },
        }
    }
}

} // verus!

//! Module for manipulation of values encoded in IL4IL instructions.
use vstd::prelude::*;
use crate::integer::VarI28;

verus! {

/// The error type used when a signed integer is not the tag of any constant value.
#[derive(Clone, Copy, Debug, PartialEq, Eq, Structural)]
pub struct InvalidTagError {
    pub tag: i32,
}

impl InvalidTagError {
    /// The message describing this error.
    pub fn message(&self) -> (r: String)
        ensures
            r@ == crate::text::spec_signed_decimal(self.tag as int) + " is not a valid constant value tag"@,
    {
        let mut r = String::new();
        crate::text::push_signed_decimal(&mut r, self.tag);
        crate::text::push_str(&mut r, " is not a valid constant value tag");
        r
    }
}

/// Indicates the kind of value contained in a [`Constant`]. Each tag value corresponds to negative values in the
/// variable-length signed integer encoding.
#[derive(Clone, Copy, Debug, PartialEq, Eq, Structural, Hash)]
pub enum ConstantTag {
    IntegerZero,
    IntegerOne,
    IntegerAll,
    IntegerSignedMaximum,
    IntegerSignedMinimum,
    IntegerInline8,
    IntegerInline16,
    IntegerInline32,
    IntegerInline64,
    IntegerInline128,
    Float16,
    Float32,
    Float64,
    Float128,
}

/// The negative integer that a constant tag is written as.
pub open spec fn spec_constant_tag_value(tag: ConstantTag) -> i32 {
    match tag {
        ConstantTag::IntegerZero => -1i32,
        ConstantTag::IntegerOne => -2i32,
        ConstantTag::IntegerAll => -3i32,
        ConstantTag::IntegerSignedMaximum => -4i32,
        ConstantTag::IntegerSignedMinimum => -5i32,
        ConstantTag::IntegerInline8 => -6i32,
        ConstantTag::IntegerInline16 => -7i32,
        ConstantTag::IntegerInline32 => -8i32,
        ConstantTag::IntegerInline64 => -9i32,
        ConstantTag::IntegerInline128 => -10i32,
        ConstantTag::Float16 => -21i32,
        ConstantTag::Float32 => -22i32,
        ConstantTag::Float64 => -23i32,
        ConstantTag::Float128 => -24i32,
    }
}

impl ConstantTag {
    /// The negative integer that this tag is written as.
    pub fn value(self) -> (r: i32)
        ensures
            r == spec_constant_tag_value(self),
            -24 <= r <= -1,
    {
        match self {
            ConstantTag::IntegerZero => -1,
            ConstantTag::IntegerOne => -2,
            ConstantTag::IntegerAll => -3,
            ConstantTag::IntegerSignedMaximum => -4,
            ConstantTag::IntegerSignedMinimum => -5,
            ConstantTag::IntegerInline8 => -6,
            ConstantTag::IntegerInline16 => -7,
            ConstantTag::IntegerInline32 => -8,
            ConstantTag::IntegerInline64 => -9,
            ConstantTag::IntegerInline128 => -10,
            ConstantTag::Float16 => -21,
            ConstantTag::Float32 => -22,
            ConstantTag::Float64 => -23,
            ConstantTag::Float128 => -24,
        }
    }

    /// Gets the tag written as the given integer.
    pub fn from_i32(tag: i32) -> (r: Option<Self>)
        ensures
            r matches Some(t) ==> spec_constant_tag_value(t) == tag,
            r is None ==> forall|t: ConstantTag| spec_constant_tag_value(t) != tag,
    {
        match tag {
            -1 => Some(ConstantTag::IntegerZero),
            -2 => Some(ConstantTag::IntegerOne),
            -3 => Some(ConstantTag::IntegerAll),
            -4 => Some(ConstantTag::IntegerSignedMaximum),
            -5 => Some(ConstantTag::IntegerSignedMinimum),
            -6 => Some(ConstantTag::IntegerInline8),
            -7 => Some(ConstantTag::IntegerInline16),
            -8 => Some(ConstantTag::IntegerInline32),
            -9 => Some(ConstantTag::IntegerInline64),
            -10 => Some(ConstantTag::IntegerInline128),
            -21 => Some(ConstantTag::Float16),
            -22 => Some(ConstantTag::Float32),
            -23 => Some(ConstantTag::Float64),
            -24 => Some(ConstantTag::Float128),
            _ => None,
        }
    }

    /// Gets the tag written as the given signed integer, failing if there is none.
    pub fn try_from_i28(tag: VarI28) -> (r: Result<Self, InvalidTagError>)
        ensures
            r matches Ok(t) ==> spec_constant_tag_value(t) == VarI28::spec_value(tag@),
            r matches Err(e) ==> e.tag == VarI28::spec_value(tag@) && forall|t: ConstantTag|
                spec_constant_tag_value(t) != VarI28::spec_value(tag@),
    {
        let value = tag.get();
        match Self::from_i32(value) {
            Some(t) => Ok(t),
            None => Err(InvalidTagError { tag: value }),
        }
    }

    /// The signed integer that this tag is written as.
    pub fn into_i28(self) -> (r: VarI28)
        ensures
            VarI28::spec_value(r@) == spec_constant_tag_value(self),
    {
        VarI28::new(self.value())
    }
}

/// A constant integer value.
#[derive(Clone, Copy, Debug, PartialEq, Eq)]
pub enum ConstantInteger {
    /// An integer value with no bits set, also the `false` boolean value.
    Zero,
    /// An integer value with only the lowest bit set, also the `true` boolean value.
    One,
    /// An integer value with all bits set.
    All,
    /// An integer value corresponding to the most positive value if it was interpreted as a signed twos-complement integer.
    SignedMaximum,
    /// An integer value corresponding to the most negative value if it was interpreted as a signed twos-complement integer.
    SignedMinimum,
    /// A byte value.
    Byte(u8),
    /// A 16-bit integer stored in little-endian order.
    I16([u8; 2]),
    /// A 32-bit integer stored in little-endian order.
    I32([u8; 4]),
    /// A 64-bit integer stored in little-endian order.
    I64([u8; 8]),
    /// A 128-bit integer stored in little-endian order.
    I128([u8; 16]),
}

/// The tag of a constant integer.
pub open spec fn spec_integer_tag(i: ConstantInteger) -> ConstantTag {
    match i {
        ConstantInteger::Zero => ConstantTag::IntegerZero,
        ConstantInteger::One => ConstantTag::IntegerOne,
        ConstantInteger::All => ConstantTag::IntegerAll,
        ConstantInteger::SignedMaximum => ConstantTag::IntegerSignedMaximum,
        ConstantInteger::SignedMinimum => ConstantTag::IntegerSignedMinimum,
        ConstantInteger::Byte(_) => ConstantTag::IntegerInline8,
        ConstantInteger::I16(_) => ConstantTag::IntegerInline16,
        ConstantInteger::I32(_) => ConstantTag::IntegerInline32,
        ConstantInteger::I64(_) => ConstantTag::IntegerInline64,
        ConstantInteger::I128(_) => ConstantTag::IntegerInline128,
    }
}

impl ConstantInteger {
    /// The tag written before the constant.
    pub fn tag(&self) -> (r: ConstantTag)
        ensures
            r == spec_integer_tag(*self),
    {
        match self {
            Self::Zero => ConstantTag::IntegerZero,
            Self::One => ConstantTag::IntegerOne,
            Self::All => ConstantTag::IntegerAll,
            Self::SignedMaximum => ConstantTag::IntegerSignedMaximum,
            Self::SignedMinimum => ConstantTag::IntegerSignedMinimum,
            Self::Byte(_) => ConstantTag::IntegerInline8,
            Self::I16(_) => ConstantTag::IntegerInline16,
            Self::I32(_) => ConstantTag::IntegerInline32,
            Self::I64(_) => ConstantTag::IntegerInline64,
            Self::I128(_) => ConstantTag::IntegerInline128,
        }
    }
}

/// A constant floating-point value, stored in little-endian order.
#[derive(Clone, Copy, Debug, PartialEq, Eq)]
pub enum ConstantFloat {
    Half([u8; 2]),
    Single([u8; 4]),
    Double([u8; 8]),
    Quadruple([u8; 16]),
}

/// The tag of a constant floating-point value.
pub open spec fn spec_float_tag(f: ConstantFloat) -> ConstantTag {
    match f {
        ConstantFloat::Half(_) => ConstantTag::Float16,
        ConstantFloat::Single(_) => ConstantTag::Float32,
        ConstantFloat::Double(_) => ConstantTag::Float64,
        ConstantFloat::Quadruple(_) => ConstantTag::Float128,
    }
}

/// The number of bits of a constant floating-point value.
pub open spec fn spec_constant_float_bits(f: ConstantFloat) -> nat {
    match f {
        ConstantFloat::Half(_) => 16,
        ConstantFloat::Single(_) => 32,
        ConstantFloat::Double(_) => 64,
        ConstantFloat::Quadruple(_) => 128,
    }
}

impl ConstantFloat {
    /// The number of bits of the value.
    pub fn bit_width(&self) -> (r: u16)
        ensures
            r == spec_constant_float_bits(*self),
    {
        match self {
            Self::Half(_) => 16,
            Self::Single(_) => 32,
            Self::Double(_) => 64,
            Self::Quadruple(_) => 128,
        }
    }

    /// The tag written before the constant.
    pub fn tag(&self) -> (r: ConstantTag)
        ensures
            r == spec_float_tag(*self),
    {
        match self {
            Self::Half(_) => ConstantTag::Float16,
            Self::Single(_) => ConstantTag::Float32,
            Self::Double(_) => ConstantTag::Float64,
            Self::Quadruple(_) => ConstantTag::Float128,
        }
    }
}

/// A constant value.
#[derive(Clone, Copy, Debug, PartialEq, Eq)]
pub enum Constant {
    Integer(ConstantInteger),
    Float(ConstantFloat),
}

/// The tag of a constant.
pub open spec fn spec_constant_tag(c: Constant) -> ConstantTag {
    match c {
        Constant::Integer(i) => spec_integer_tag(i),
        Constant::Float(f) => spec_float_tag(f),
    }
}

impl Constant {
    /// The tag written before the constant.
    pub fn tag(&self) -> (r: ConstantTag)
        ensures
            r == spec_constant_tag(*self),
    {
        match self {
            Self::Integer(integer) => integer.tag(),
            Self::Float(float) => float.tag(),
        }
    }
}

/// A value used as an immediate argument for some IL4IL instructions.
///
/// In many cases, the type of the argument is inferred, though some instructions may explicitly require a type for a value.
#[derive(Clone, Copy, Debug, PartialEq, Eq)]
pub enum Value {
    Constant(Constant),
}

impl Value {
    /// A constant integer value.
    pub fn from_integer(i: ConstantInteger) -> (r: Self)
        ensures
            r == Value::Constant(Constant::Integer(i)),
    {
        Value::Constant(Constant::Integer(i))
    }

    /// A constant floating-point value.
    pub fn from_float(f: ConstantFloat) -> (r: Self)
        ensures
            r == Value::Constant(Constant::Float(f)),
    {
        Value::Constant(Constant::Float(f))
    }
}

impl View for Value {
    type V = Value;

    open spec fn view(&self) -> Value {
        *self
    }
}


/// The decimal numbers of the bytes, separated by a comma and a space.
pub open spec fn spec_joined_bytes(bytes: Seq<u8>) -> Seq<char>
    decreases bytes.len(),
{
    if bytes.len() == 0 {
        Seq::empty()
    } else if bytes.len() == 1 {
        crate::text::spec_decimal(bytes[0] as nat)
    } else {
        spec_joined_bytes(bytes.drop_last()) + ", "@ + crate::text::spec_decimal(bytes.last() as nat)
    }
}

/// The bytes as [`std::fmt::Debug`] writes an array of them: their decimal numbers between square brackets.
pub open spec fn spec_bytes_text(bytes: Seq<u8>) -> Seq<char> {
    seq!['['] + spec_joined_bytes(bytes) + seq![']']
}

/// A variant name followed by its field between parentheses, as [`std::fmt::Debug`] writes a variant.
pub open spec fn spec_variant_text(name: Seq<char>, field: Seq<char>) -> Seq<char> {
    name + seq!['('] + field + seq![')']
}

/// The text that [`std::fmt::Debug`] writes for a constant integer.
pub open spec fn spec_integer_text(i: ConstantInteger) -> Seq<char> {
    match i {
        ConstantInteger::Zero => "Zero"@,
        ConstantInteger::One => "One"@,
        ConstantInteger::All => "All"@,
        ConstantInteger::SignedMaximum => "SignedMaximum"@,
        ConstantInteger::SignedMinimum => "SignedMinimum"@,
        ConstantInteger::Byte(b) => spec_variant_text("Byte"@, crate::text::spec_decimal(b as nat)),
        ConstantInteger::I16(a) => spec_variant_text("I16"@, spec_bytes_text(a@)),
        ConstantInteger::I32(a) => spec_variant_text("I32"@, spec_bytes_text(a@)),
        ConstantInteger::I64(a) => spec_variant_text("I64"@, spec_bytes_text(a@)),
        ConstantInteger::I128(a) => spec_variant_text("I128"@, spec_bytes_text(a@)),
    }
}

/// The text that [`std::fmt::Debug`] writes for a constant floating-point value.
pub open spec fn spec_float_text(f: ConstantFloat) -> Seq<char> {
    match f {
        ConstantFloat::Half(a) => spec_variant_text("Half"@, spec_bytes_text(a@)),
        ConstantFloat::Single(a) => spec_variant_text("Single"@, spec_bytes_text(a@)),
        ConstantFloat::Double(a) => spec_variant_text("Double"@, spec_bytes_text(a@)),
        ConstantFloat::Quadruple(a) => spec_variant_text("Quadruple"@, spec_bytes_text(a@)),
    }
}

/// The text that [`std::fmt::Debug`] writes for a value.
pub open spec fn spec_value_text(v: Value) -> Seq<char> {
    match v {
        Value::Constant(Constant::Integer(i)) => spec_variant_text(
            "Constant"@,
            spec_variant_text("Integer"@, spec_integer_text(i)),
        ),
        Value::Constant(Constant::Float(f)) => spec_variant_text(
            "Constant"@,
            spec_variant_text("Float"@, spec_float_text(f)),
        ),
    }
}

/// The texts of the values, separated by a comma and a space.
pub open spec fn spec_joined_values(values: Seq<Value>) -> Seq<char>
    decreases values.len(),
{
    if values.len() == 0 {
        Seq::empty()
    } else if values.len() == 1 {
        spec_value_text(values[0])
    } else {
        spec_joined_values(values.drop_last()) + ", "@ + spec_value_text(values.last())
    }
}

/// Appends the decimal numbers of the bytes between square brackets, separated by a comma and a space.
fn push_bytes_text(s: &mut String, bytes: &[u8])
    ensures
        final(s)@ == old(s)@ + spec_bytes_text(bytes@),
{
    crate::text::push_char(s, '[');
    let mut i: usize = 0;
    while i < bytes.len()
        invariant
            i <= bytes@.len(),
            s@ == old(s)@ + seq!['['] + spec_joined_bytes(bytes@.take(i as int)),
        decreases bytes@.len() - i,
    {
        let ghost before = s@;
        if i > 0 {
            crate::text::push_str(s, ", ");
        }
        crate::text::push_decimal(s, bytes[i] as u64);
        assert(bytes@.take(i + 1).drop_last() =~= bytes@.take(i as int));
        if i == 0 {
            assert(s@ =~= old(s)@ + seq!['['] + spec_joined_bytes(bytes@.take(i + 1)));
        } else {
            assert(s@ =~= old(s)@ + seq!['['] + spec_joined_bytes(bytes@.take(i + 1)));
        }
        i = i + 1;
    }
    assert(bytes@.take(i as int) =~= bytes@);
    crate::text::push_char(s, ']');
    assert(s@ =~= old(s)@ + spec_bytes_text(bytes@));
}

/// Appends a variant name and an opening parenthesis.
fn push_variant_start(s: &mut String, name: &str)
    ensures
        final(s)@ == old(s)@ + name@ + seq!['('],
{
    crate::text::push_str(s, name);
    crate::text::push_char(s, '(');
}

impl ConstantInteger {
    /// Appends the text that [`std::fmt::Debug`] writes for the constant integer.
    pub fn push_text(&self, s: &mut String)
        ensures
            final(s)@ == old(s)@ + spec_integer_text(*self),
    {
        match self {
            ConstantInteger::Zero => crate::text::push_str(s, "Zero"),
            ConstantInteger::One => crate::text::push_str(s, "One"),
            ConstantInteger::All => crate::text::push_str(s, "All"),
            ConstantInteger::SignedMaximum => crate::text::push_str(s, "SignedMaximum"),
            ConstantInteger::SignedMinimum => crate::text::push_str(s, "SignedMinimum"),
            ConstantInteger::Byte(b) => {
                push_variant_start(s, "Byte");
                crate::text::push_decimal(s, *b as u64);
                crate::text::push_char(s, ')');
            },
            ConstantInteger::I16(a) => {
                push_variant_start(s, "I16");
                push_bytes_text(s, a.as_slice());
                crate::text::push_char(s, ')');
            },
            ConstantInteger::I32(a) => {
                push_variant_start(s, "I32");
                push_bytes_text(s, a.as_slice());
                crate::text::push_char(s, ')');
            },
            ConstantInteger::I64(a) => {
                push_variant_start(s, "I64");
                push_bytes_text(s, a.as_slice());
                crate::text::push_char(s, ')');
            },
            ConstantInteger::I128(a) => {
                push_variant_start(s, "I128");
                push_bytes_text(s, a.as_slice());
                crate::text::push_char(s, ')');
            },
        }
        assert(s@ =~= old(s)@ + spec_integer_text(*self));
    }
}

impl ConstantFloat {
    /// Appends the text that [`std::fmt::Debug`] writes for the constant floating-point value.
    pub fn push_text(&self, s: &mut String)
        ensures
            final(s)@ == old(s)@ + spec_float_text(*self),
    {
        match self {
            ConstantFloat::Half(a) => {
                push_variant_start(s, "Half");
                push_bytes_text(s, a.as_slice());
            },
            ConstantFloat::Single(a) => {
                push_variant_start(s, "Single");
                push_bytes_text(s, a.as_slice());
            },
            ConstantFloat::Double(a) => {
                push_variant_start(s, "Double");
                push_bytes_text(s, a.as_slice());
            },
            ConstantFloat::Quadruple(a) => {
                push_variant_start(s, "Quadruple");
                push_bytes_text(s, a.as_slice());
            },
        }
        crate::text::push_char(s, ')');
        assert(s@ =~= old(s)@ + spec_float_text(*self));
    }
}

impl Value {
    /// Appends the text that [`std::fmt::Debug`] writes for the value.
    pub fn push_text(&self, s: &mut String)
        ensures
            final(s)@ == old(s)@ + spec_value_text(*self),
    {
        push_variant_start(s, "Constant");
        match self {
            Value::Constant(Constant::Integer(i)) => {
                push_variant_start(s, "Integer");
                i.push_text(s);
            },
            Value::Constant(Constant::Float(f)) => {
                push_variant_start(s, "Float");
                f.push_text(s);
            },
        }
        crate::text::push_char(s, ')');
        crate::text::push_char(s, ')');
        assert(s@ =~= old(s)@ + spec_value_text(*self));
    }
}

/// Appends the texts of the values, separated by a comma and a space.
pub fn push_values_text(s: &mut String, values: &[Value])
    ensures
        final(s)@ == old(s)@ + spec_joined_values(values@),
{
    let mut i: usize = 0;
    assert(values@.take(0) =~= Seq::<Value>::empty());
    assert(old(s)@ + Seq::<char>::empty() =~= old(s)@);
    while i < values.len()
        invariant
            i <= values@.len(),
            s@ == old(s)@ + spec_joined_values(values@.take(i as int)),
        decreases values@.len() - i,
    {
        if i > 0 {
            crate::text::push_str(s, ", ");
        }
        values[i].push_text(s);
        assert(values@.take(i + 1).drop_last() =~= values@.take(i as int));
        assert(s@ =~= old(s)@ + spec_joined_values(values@.take(i + 1)));
        i = i + 1;
    }
    assert(values@.take(i as int) =~= values@);
}
} // verus!

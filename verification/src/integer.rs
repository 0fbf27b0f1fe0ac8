//! Module for manipulating integers in the IL4IL binary format.
//!
//! # Variable Length Encoding
//!
//! The encoding of variable-width integers is similar to the encoding used in UTF-8 codepoints. The lowest bits indicate the
//! number of bytes needed to contain the integer value.
//!
//! | Actual Value                          |Integer Length (bytes)|Integer Size (bits)|
//! |---------------------------------------|----------------------|-------------------|
//! | `XXXXXXX0`                            | `1`                  | `7`               |
//! | `XXXXXX01 XXXXXXXX`                   | `2`                  | `14`              |
//! | `XXXXX011 XXXXXXXX XXXXXXXX`          | `3`                  | `21`              |
//! | `XXXX0111 XXXXXXXX XXXXXXXX XXXXXXXX` | `4`                  | `28`              |
//!
//! For simplicity, the binary format currently only allows a maximum length of `4` for all integers.
use vstd::prelude::*;

verus! {

/// Number of consecutive set bits, starting from the least significant bit of a byte.
pub open spec fn trailing_ones(b: u8) -> u8 {
    if b & 1 == 0 {
        0
    } else if b & 2 == 0 {
        1
    } else if b & 4 == 0 {
        2
    } else if b & 8 == 0 {
        3
    } else if b & 16 == 0 {
        4
    } else if b & 32 == 0 {
        5
    } else if b & 64 == 0 {
        6
    } else if b & 128 == 0 {
        7
    } else {
        8
    }
}

/// Counts the consecutive set bits starting from the least significant bit of `b`.
pub fn count_trailing_ones(b: u8) -> (r: u8)
    ensures
        r == trailing_ones(b),
        r <= 8,
{
    if b & 1 == 0 {
        0
    } else if b & 2 == 0 {
        1
    } else if b & 4 == 0 {
        2
    } else if b & 8 == 0 {
        3
    } else if b & 16 == 0 {
        4
    } else if b & 32 == 0 {
        5
    } else if b & 64 == 0 {
        6
    } else if b & 128 == 0 {
        7
    } else {
        8
    }
}

/// Error type used when the indicated length of an integer is invalid.
#[derive(Clone, Copy, Debug, PartialEq, Eq, Structural)]
pub struct LengthError {
    length: u8,
}

impl LengthError {
    /// The unsupported length that was indicated by the leading byte.
    pub fn length(&self) -> (r: u8)
        ensures
            r == self.spec_length(),
    {
        self.length
    }

    /// The length indicated by the leading byte, in specifications.
    pub closed spec fn spec_length(&self) -> u8 {
        self.length
    }

    /// The message describing this error.
    pub fn message(&self) -> (r: String)
        ensures
            r@ == "integers of byte length "@ + crate::text::spec_decimal(self.spec_length() as nat)
                + " are not supported by IL4IL"@,
    {
        crate::text::concat3("integers of byte length ", &crate::text::decimal_string(self.length as u64), " are not supported by IL4IL")
    }
}

/// Error type used when an attempt to store an integer value fails.
#[derive(Clone, Copy, Debug, PartialEq, Eq, Structural)]
pub struct EncodingError;

impl EncodingError {
    /// The message describing this error.
    pub fn message(&self) -> (r: &'static str)
        ensures
            r@ == "integer too large to be encoded"@,
    {
        "integer too large to be encoded"
    }
}

/// Error type used when the bytes of an integer end before the integer is complete.
#[derive(Clone, Copy, Debug, PartialEq, Eq, Structural)]
pub struct EndOfInputError;

/// The number of bytes needed to encode an unsigned value.
pub open spec fn spec_var_u28_length(v: u32) -> nat {
    if v <= 0x7F {
        1
    } else if v <= 0x3FFF {
        2
    } else if v <= 0x1F_FFFF {
        3
    } else {
        4
    }
}

/// The bytes written for an unsigned variable-length integer value.
pub open spec fn spec_encode_var_u28(v: u32) -> Seq<u8> {
    if v <= 0x7F {
        seq![((v << 1u32) & 0xFF) as u8]
    } else if v <= 0x3FFF {
        let w = (v << 2u32) | 1;
        seq![(w & 0xFF) as u8, ((w >> 8u32) & 0xFF) as u8]
    } else if v <= 0x1F_FFFF {
        let w = (v << 3u32) | 3;
        seq![(w & 0xFF) as u8, ((w >> 8u32) & 0xFF) as u8, ((w >> 16u32) & 0xFF) as u8]
    } else {
        let w = (v << 4u32) | 7;
        seq![
            (w & 0xFF) as u8,
            ((w >> 8u32) & 0xFF) as u8,
            ((w >> 16u32) & 0xFF) as u8,
            ((w >> 24u32) & 0xFF) as u8,
        ]
    }
}

/// The little-endian value of the first `count` bytes of `s` (at most four).
pub open spec fn spec_le_u32(s: Seq<u8>, count: u8) -> u32 {
    let b0 = s[0] as u32;
    let b1 = if count >= 2 { s[1] as u32 } else { 0 };
    let b2 = if count >= 3 { s[2] as u32 } else { 0 };
    let b3 = if count >= 4 { s[3] as u32 } else { 0 };
    b0 | (b1 << 8u32) | (b2 << 16u32) | (b3 << 24u32)
}

/// The unsigned value encoded by the leading bytes of `s`, given the count `t` of trailing one bits of its first byte.
pub open spec fn spec_var_u28_payload(s: Seq<u8>, t: u8) -> u32 {
    spec_le_u32(s, (t + 1) as u8) >> ((t + 1) as u32)
}

/// What reading an unsigned variable-length integer from the start of `s` gives: `Err(())` when the bytes end too early,
/// `Ok(Err(length))` when the leading byte indicates an unsupported byte length (one more than its trailing one bits),
/// and otherwise the value with the number of bytes it occupies.
pub open spec fn spec_read_var_u28(s: Seq<u8>) -> Result<Result<(u32, nat), u8>, ()> {
    if s.len() == 0 {
        Err(())
    } else {
        let t = trailing_ones(s[0]);
        if t >= 4 {
            Ok(Err((t + 1) as u8))
        } else if s.len() < t + 1 {
            Err(())
        } else {
            Ok(Ok((spec_var_u28_payload(s, t), (t + 1) as nat)))
        }
    }
}

/// An unsigned integer that can be represented in 1, 2, 3, or 4 bytes.
///
/// For more details, see the documentation for the [this module].
///
/// [this module]: crate::integer
#[derive(Clone, Copy, Debug, PartialEq, Eq, Structural, Hash)]
pub struct VarU28 {
    value: u32,
}

impl View for VarU28 {
    type V = u32;

    closed spec fn view(&self) -> u32 {
        self.value
    }
}

impl VarU28 {
    /// The decimal text of the integer.
    pub fn to_text(self) -> (r: String)
        ensures
            r@ == crate::text::spec_decimal(self@ as nat),
    {
        crate::text::decimal_string(self.value as u64)
    }

    #[verifier::type_invariant]
    spec fn fits(&self) -> bool {
        self.value < 0x1000_0000
    }

    /// The number of bits that can encode a value.
    pub const BITS: u32 = 28u32;

    /// Creates a new unsigned integer.
    pub fn new(value: u32) -> (r: Self)
        requires
            value < 0x1000_0000,
        ensures
            r@ == value,
    {
        VarU28 { value }
    }

    /// The smallest value that can be encoded.
    pub fn min() -> (r: Self)
        ensures
            r@ == 0,
    {
        VarU28 { value: 0 }
    }

    /// The largest value that is allowed to be encoded.
    pub fn max() -> (r: Self)
        ensures
            r@ == 0x0FFF_FFFF,
    {
        VarU28 { value: 0x0FFF_FFFF }
    }

    /// The maximum value that can be encoded in 1 byte.
    pub fn max_1() -> (r: Self)
        ensures
            r@ == 0x7F,
    {
        VarU28 { value: 0x7F }
    }

    /// The maximum value that can be encoded in 2 bytes.
    pub fn max_2() -> (r: Self)
        ensures
            r@ == 0x3FFF,
    {
        VarU28 { value: 0x3FFF }
    }

    /// The maximum value that can be encoded in 3 bytes.
    pub fn max_3() -> (r: Self)
        ensures
            r@ == 0x1F_FFFF,
    {
        VarU28 { value: 0x1F_FFFF }
    }

    /// The maximum value that can be encoded in 4 bytes.
    pub fn max_4() -> (r: Self)
        ensures
            r@ == 0x0FFF_FFFF,
    {
        VarU28 { value: 0x0FFF_FFFF }
    }

    /// Gets the value of this integer.
    pub fn get(self) -> (r: u32)
        ensures
            r == self@,
            r < 0x1000_0000,
    {
        proof {
            use_type_invariant(&self);
        }
        self.value
    }

    /// Creates a new unsigned integer, returning `None` if the value is too large to be represented in 28 bits.
    pub fn from_u32(value: u32) -> (r: Option<Self>)
        ensures
            value < 0x1000_0000 ==> (r matches Some(x) && x@ == value),
            value >= 0x1000_0000 ==> r is None,
    {
        if value & 0xF000_0000u32 == 0 {
            assert(value < 0x1000_0000) by (bit_vector)
                requires
                    value & 0xF000_0000u32 == 0,
            ;
            Some(VarU28 { value })
        } else {
            assert(value >= 0x1000_0000) by (bit_vector)
                requires
                    value & 0xF000_0000u32 != 0,
            ;
            None
        }
    }

    /// Creates an unsigned integer from an unsigned byte value.
    pub fn from_u8(value: u8) -> (r: Self)
        ensures
            r@ == value as u32,
    {
        VarU28 { value: value as u32 }
    }

    /// Creates an unsigned integer from an unsigned 16-bit integer.
    pub fn from_u16(value: u16) -> (r: Self)
        ensures
            r@ == value as u32,
    {
        VarU28 { value: value as u32 }
    }

    /// Converts a length or index into an unsigned integer, failing if it does not fit in 28 bits.
    pub fn from_usize(value: usize) -> (r: Result<Self, EncodingError>)
        ensures
            value < 0x1000_0000 ==> (r matches Ok(x) && x@ == value),
            value >= 0x1000_0000 ==> r is Err,
    {
        if value < 0x1000_0000 {
            Ok(VarU28 { value: value as u32 })
        } else {
            Err(EncodingError)
        }
    }

    /// Converts this value to a length or index.
    pub fn to_usize(self) -> (r: usize)
        ensures
            r == self@,
    {
        proof {
            use_type_invariant(&self);
        }
        self.value as usize
    }

    /// Gets the number of bytes needed to contain this unsigned integer value.
    pub fn byte_length(self) -> (r: u8)
        ensures
            r == spec_var_u28_length(self@),
            1 <= r <= 4,
    {
        if self.value <= 0x7F {
            1
        } else if self.value <= 0x3FFF {
            2
        } else if self.value <= 0x1F_FFFF {
            3
        } else {
            4
        }
    }

    /// Bitwise or of two integers.
    pub fn bitor(self, rhs: Self) -> (r: Self)
        ensures
            r@ == self@ | rhs@,
    {
        proof {
            use_type_invariant(&self);
            use_type_invariant(&rhs);
        }
        let a = self.value;
        let b = rhs.value;
        assert(a | b < 0x1000_0000) by (bit_vector)
            requires
                a < 0x1000_0000,
                b < 0x1000_0000,
        ;
        VarU28 { value: a | b }
    }

    /// Bitwise and of two integers.
    pub fn bitand(self, rhs: Self) -> (r: Self)
        ensures
            r@ == self@ & rhs@,
    {
        proof {
            use_type_invariant(&self);
        }
        let a = self.value;
        let b = rhs.value;
        assert(a & b < 0x1000_0000) by (bit_vector)
            requires
                a < 0x1000_0000,
        ;
        VarU28 { value: a & b }
    }

    /// Reads a variable-length integer value from the start of `bytes`, returning it with the number of bytes it occupies.
    pub fn read_from(bytes: &[u8]) -> (r: Result<Result<(VarU28, usize), LengthError>, EndOfInputError>)
        ensures
            match (r, spec_read_var_u28(bytes@)) {
                (Ok(Ok((v, n))), Ok(Ok((sv, sn)))) => v@ == sv && n == sn,
                (Ok(Err(e)), Ok(Err(l))) => e.spec_length() == l,
                (Err(_), Err(_)) => true,
                _ => false,
            },
    {
        if bytes.len() == 0 {
            return Err(EndOfInputError);
        }
        let b0 = bytes[0];
        let t = count_trailing_ones(b0);
        if t >= 4 {
            return Ok(Err(LengthError { length: t + 1 }));
        }
        if bytes.len() < (t as usize) + 1 {
            return Err(EndOfInputError);
        }
        let x0 = b0 as u32;
        let x1: u32 = if t >= 1 { bytes[1] as u32 } else { 0 };
        let x2: u32 = if t >= 2 { bytes[2] as u32 } else { 0 };
        let x3: u32 = if t >= 3 { bytes[3] as u32 } else { 0 };
        let shift: u32 = (t as u32) + 1;
        let value = (x0 | (x1 << 8u32) | (x2 << 16u32) | (x3 << 24u32)) >> shift;
        proof {
            let t1 = (t + 1) as u8;
            assert(x1 == (if t1 >= 2 { bytes@[1] as u32 } else { 0 }));
            assert(x2 == (if t1 >= 3 { bytes@[2] as u32 } else { 0 }));
            assert(x3 == (if t1 >= 4 { bytes@[3] as u32 } else { 0 }));
            assert(value == spec_var_u28_payload(bytes@, t));
            assert(value < 0x1000_0000) by (bit_vector)
                requires
                    x0 < 256,
                    x1 < 256,
                    x2 < 256,
                    x3 < 256,
                    1 <= shift <= 4,
                    shift <= 1 ==> x1 == 0,
                    shift <= 2 ==> x2 == 0,
                    shift <= 3 ==> x3 == 0,
                    value == (x0 | (x1 << 8u32) | (x2 << 16u32) | (x3 << 24u32)) >> shift,
            ;
        }
        Ok(Ok((VarU28 { value }, (t as usize) + 1)))
    }

    /// Appends the variable-length encoding of this integer to `destination`.
    pub fn write_to(self, destination: &mut Vec<u8>)
        ensures
            final(destination)@ == old(destination)@ + spec_encode_var_u28(self@),
    {
        let v = self.value;
        if v <= 0x7F {
            destination.push(((v << 1u32) & 0xFF) as u8);
        } else if v <= 0x3FFF {
            let w = (v << 2u32) | 1;
            destination.push((w & 0xFF) as u8);
            destination.push(((w >> 8u32) & 0xFF) as u8);
        } else if v <= 0x1F_FFFF {
            let w = (v << 3u32) | 3;
            destination.push((w & 0xFF) as u8);
            destination.push(((w >> 8u32) & 0xFF) as u8);
            destination.push(((w >> 16u32) & 0xFF) as u8);
        } else {
            let w = (v << 4u32) | 7;
            destination.push((w & 0xFF) as u8);
            destination.push(((w >> 8u32) & 0xFF) as u8);
            destination.push(((w >> 16u32) & 0xFF) as u8);
            destination.push(((w >> 24u32) & 0xFF) as u8);
        }
        assert(destination@ =~= old(destination)@ + spec_encode_var_u28(self@));
    }

    /// Allocates a [`Vec<u8>`] containing the representation of `self`.
    pub fn into_vec(self) -> (r: Vec<u8>)
        ensures
            r@ == spec_encode_var_u28(self@),
            self@ < 0x1000_0000,
    {
        proof {
            use_type_invariant(&self);
        }
        let mut bytes = Vec::with_capacity(1);
        self.write_to(&mut bytes);
        assert(bytes@ =~= spec_encode_var_u28(self@));
        bytes
    }
}


proof fn lemma_u28_bytes_1(v: u32, b0: u8)
    by (bit_vector)
    requires
        v <= 0x7F,
        b0 == ((v << 1u32) & 0xFF) as u8,
    ensures
        b0 & 1 == 0,
        ((b0 as u32) | (0u32 << 8u32) | (0u32 << 16u32) | (0u32 << 24u32)) >> 1u32 == v,
{
}

proof fn lemma_u28_bytes_2(v: u32, b0: u8, b1: u8)
    by (bit_vector)
    requires
        0x7F < v <= 0x3FFF,
        b0 == (((v << 2u32) | 1) & 0xFF) as u8,
        b1 == ((((v << 2u32) | 1) >> 8u32) & 0xFF) as u8,
    ensures
        b0 & 1 != 0,
        b0 & 2 == 0,
        ((b0 as u32) | ((b1 as u32) << 8u32) | (0u32 << 16u32) | (0u32 << 24u32)) >> 2u32 == v,
{
}

proof fn lemma_u28_bytes_3(v: u32, b0: u8, b1: u8, b2: u8)
    by (bit_vector)
    requires
        0x3FFF < v <= 0x1F_FFFF,
        b0 == (((v << 3u32) | 3) & 0xFF) as u8,
        b1 == ((((v << 3u32) | 3) >> 8u32) & 0xFF) as u8,
        b2 == ((((v << 3u32) | 3) >> 16u32) & 0xFF) as u8,
    ensures
        b0 & 1 != 0,
        b0 & 2 != 0,
        b0 & 4 == 0,
        ((b0 as u32) | ((b1 as u32) << 8u32) | ((b2 as u32) << 16u32) | (0u32 << 24u32)) >> 3u32 == v,
{
}

proof fn lemma_u28_bytes_4(v: u32, b0: u8, b1: u8, b2: u8, b3: u8)
    by (bit_vector)
    requires
        0x1F_FFFF < v < 0x1000_0000,
        b0 == (((v << 4u32) | 7) & 0xFF) as u8,
        b1 == ((((v << 4u32) | 7) >> 8u32) & 0xFF) as u8,
        b2 == ((((v << 4u32) | 7) >> 16u32) & 0xFF) as u8,
        b3 == ((((v << 4u32) | 7) >> 24u32) & 0xFF) as u8,
    ensures
        b0 & 1 != 0,
        b0 & 2 != 0,
        b0 & 4 != 0,
        b0 & 8 == 0,
        ((b0 as u32) | ((b1 as u32) << 8u32) | ((b2 as u32) << 16u32) | ((b3 as u32) << 24u32)) >> 4u32 == v,
{
}

/// Every unsigned value of at most 28 bits, once written, is read back as the same value, taking up exactly the bytes that
/// were written, whatever bytes follow it.
pub proof fn lemma_var_u28_round_trip(v: u32, rest: Seq<u8>)
    requires
        v < 0x1000_0000,
    ensures
        spec_read_var_u28(spec_encode_var_u28(v) + rest) == Ok::<Result<(u32, nat), u8>, ()>(
            Ok((v, spec_var_u28_length(v))),
        ),
        spec_encode_var_u28(v).len() == spec_var_u28_length(v),
{
    let e = spec_encode_var_u28(v);
    let s = e + rest;
    if v <= 0x7F {
        lemma_u28_bytes_1(v, e[0]);
        assert(s[0] == e[0]);
    } else if v <= 0x3FFF {
        lemma_u28_bytes_2(v, e[0], e[1]);
        assert(s[0] == e[0] && s[1] == e[1]);
    } else if v <= 0x1F_FFFF {
        lemma_u28_bytes_3(v, e[0], e[1], e[2]);
        assert(s[0] == e[0] && s[1] == e[1] && s[2] == e[2]);
    } else {
        lemma_u28_bytes_4(v, e[0], e[1], e[2], e[3]);
        assert(s[0] == e[0] && s[1] == e[1] && s[2] == e[2] && s[3] == e[3]);
    }
}


/// Whether a 32-bit two's complement value fits in 28 bits, i.e. lies in `-2^27..2^27`.
pub open spec fn fits_i28(bits: u32) -> bool {
    bits < 0x0800_0000 || bits >= 0xF800_0000
}

/// The number of bytes needed to encode a signed value, given as its 32-bit two's complement representation.
pub open spec fn spec_var_i28_length(x: u32) -> nat {
    if x <= 0x3F || x >= 0xFFFF_FFC0 {
        1
    } else if x <= 0x1FFF || x >= 0xFFFF_E000 {
        2
    } else if x <= 0xF_FFFF || x >= 0xFFF0_0000 {
        3
    } else {
        4
    }
}

/// The bytes written for a signed variable-length integer, given as its 32-bit two's complement representation.
pub open spec fn spec_encode_var_i28(x: u32) -> Seq<u8> {
    if x <= 0x3F || x >= 0xFFFF_FFC0 {
        seq![((x << 1u32) & 0xFF) as u8]
    } else if x <= 0x1FFF || x >= 0xFFFF_E000 {
        let w = (x << 2u32) | 1;
        seq![(w & 0xFF) as u8, ((w >> 8u32) & 0xFF) as u8]
    } else if x <= 0xF_FFFF || x >= 0xFFF0_0000 {
        let w = (x << 3u32) | 3;
        seq![(w & 0xFF) as u8, ((w >> 8u32) & 0xFF) as u8, ((w >> 16u32) & 0xFF) as u8]
    } else {
        let w = (x << 4u32) | 7;
        seq![
            (w & 0xFF) as u8,
            ((w >> 8u32) & 0xFF) as u8,
            ((w >> 16u32) & 0xFF) as u8,
            ((w >> 24u32) & 0xFF) as u8,
        ]
    }
}

/// The sign bit of an encoded signed integer spanning `t + 1` bytes, within the little-endian value of those bytes.
pub open spec fn i28_sign_mask(t: u8) -> u32 {
    if t == 0 {
        0x80
    } else if t == 1 {
        0x8000
    } else if t == 2 {
        0x0080_0000
    } else {
        0x8000_0000
    }
}

/// The bits set by sign extension of a negative encoded signed integer spanning `t + 1` bytes.
pub open spec fn i28_extension(t: u8) -> u32 {
    if t == 0 {
        0xFFFF_FF80
    } else if t == 1 {
        0xFFFF_C000
    } else if t == 2 {
        0xFFE0_0000
    } else {
        0xF000_0000
    }
}

/// The two's complement representation of the signed value encoded by the leading bytes of `s`, given the count `t` of
/// trailing one bits of its first byte.
pub open spec fn spec_var_i28_payload(s: Seq<u8>, t: u8) -> u32 {
    let bytes = spec_le_u32(s, (t + 1) as u8);
    let shifted = bytes >> ((t + 1) as u32);
    if bytes & i28_sign_mask(t) != 0 {
        shifted | i28_extension(t)
    } else {
        shifted
    }
}

/// What reading a signed variable-length integer from the start of `s` gives, in the same form as
/// [`spec_read_var_u28`], with the value given as its 32-bit two's complement representation.
pub open spec fn spec_read_var_i28(s: Seq<u8>) -> Result<Result<(u32, nat), u8>, ()> {
    if s.len() == 0 {
        Err(())
    } else {
        let t = trailing_ones(s[0]);
        if t >= 4 {
            Ok(Err((t + 1) as u8))
        } else if s.len() < t + 1 {
            Err(())
        } else {
            Ok(Ok((spec_var_i28_payload(s, t), (t + 1) as nat)))
        }
    }
}

/// An signed integer that can be represented in 1, 2, 3, or 4 bytes.
///
/// For more details, see the documentation for the [this module].
///
/// [this module]: crate::integer
#[derive(Clone, Copy, Debug, PartialEq, Eq, Structural, Hash)]
pub struct VarI28 {
    /// The value in 32-bit two's complement representation.
    bits: u32,
}

impl View for VarI28 {
    type V = u32;

    /// The value of the integer in 32-bit two's complement representation.
    closed spec fn view(&self) -> u32 {
        self.bits
    }
}

proof fn lemma_i32_bits(value: i32, bits: u32)
    by (bit_vector)
    requires
        bits == value as u32,
    ensures
        bits as i32 == value,
        fits_i28(bits) <==> (-0x0800_0000 <= value && value < 0x0800_0000),
        value >= 0 <==> bits < 0x8000_0000,
{
}

impl VarI28 {
    /// The decimal text of the integer, with a minus sign when it is negative.
    pub fn to_text(self) -> (r: String)
        ensures
            r@ == crate::text::spec_signed_decimal(Self::spec_value(self@) as int),
    {
        let mut r = String::new();
        crate::text::push_signed_decimal(&mut r, self.get());
        assert(r@ =~= crate::text::spec_signed_decimal(Self::spec_value(self@) as int));
        r
    }

    #[verifier::type_invariant]
    spec fn fits(&self) -> bool {
        fits_i28(self.bits)
    }

    /// The signed value of a two's complement representation.
    pub open spec fn spec_value(bits: u32) -> i32 {
        bits as i32
    }

    /// Creates a new signed integer.
    pub fn new(value: i32) -> (r: Self)
        requires
            -0x0800_0000 <= value < 0x0800_0000,
        ensures
            r@ == value as u32,
            Self::spec_value(r@) == value,
    {
        let bits = value as u32;
        proof {
            lemma_i32_bits(value, bits);
        }
        VarI28 { bits }
    }

    /// Creates a new signed integer, returning `None` if the value cannot fit in 28 bits.
    pub fn from_i32(value: i32) -> (r: Option<Self>)
        ensures
            -0x0800_0000 <= value < 0x0800_0000 ==> (r matches Some(x) && x@ == value as u32),
            !(-0x0800_0000 <= value < 0x0800_0000) ==> r is None,
    {
        if -0x0800_0000 <= value && value < 0x0800_0000 {
            Some(Self::new(value))
        } else {
            None
        }
    }

    /// Creates a signed integer from an unsigned byte value.
    pub fn from_u8(value: u8) -> (r: Self)
        ensures
            r@ == value as u32,
            Self::spec_value(r@) == value as i32,
    {
        Self::new(value as i32)
    }

    /// Creates a signed integer from an unsigned 16-bit integer.
    pub fn from_u16(value: u16) -> (r: Self)
        ensures
            r@ == value as u32,
            Self::spec_value(r@) == value as i32,
    {
        Self::new(value as i32)
    }

    /// Creates a signed integer from a signed byte value.
    pub fn from_i8(value: i8) -> (r: Self)
        ensures
            Self::spec_value(r@) == value as i32,
    {
        Self::new(value as i32)
    }

    /// Creates a signed integer from a signed 16-bit integer.
    pub fn from_i16(value: i16) -> (r: Self)
        ensures
            Self::spec_value(r@) == value as i32,
    {
        Self::new(value as i32)
    }

    /// Gets the zero value.
    pub fn zero() -> (r: Self)
        ensures
            r@ == 0,
    {
        VarI28 { bits: 0 }
    }

    /// The largest value that fits in one byte.
    pub fn max_1() -> (r: Self)
        ensures
            Self::spec_value(r@) == 63,
    {
        Self::new(63)
    }

    /// The smallest value that fits in one byte.
    pub fn min_1() -> (r: Self)
        ensures
            Self::spec_value(r@) == -64,
    {
        Self::new(-64)
    }

    /// The largest value that fits in two bytes.
    pub fn max_2() -> (r: Self)
        ensures
            Self::spec_value(r@) == 8191,
    {
        Self::new(8191)
    }

    /// The smallest value that fits in two bytes.
    pub fn min_2() -> (r: Self)
        ensures
            Self::spec_value(r@) == -8192,
    {
        Self::new(-8192)
    }

    /// The largest value that fits in three bytes.
    pub fn max_3() -> (r: Self)
        ensures
            Self::spec_value(r@) == 1048575,
    {
        Self::new(1048575)
    }

    /// The smallest value that fits in three bytes.
    pub fn min_3() -> (r: Self)
        ensures
            Self::spec_value(r@) == -1048576,
    {
        Self::new(-1048576)
    }

    /// The largest value that fits in four bytes, the largest value of all.
    pub fn max_4() -> (r: Self)
        ensures
            Self::spec_value(r@) == 134217727,
    {
        Self::new(134217727)
    }

    /// The smallest value that fits in four bytes, the smallest value of all.
    pub fn min_4() -> (r: Self)
        ensures
            Self::spec_value(r@) == -134217728,
    {
        Self::new(-134217728)
    }

    /// Gets the value of this signed integer.
    pub fn get(self) -> (r: i32)
        ensures
            r == Self::spec_value(self@),
            r as u32 == self@,
            -0x0800_0000 <= r < 0x0800_0000,
    {
        proof {
            use_type_invariant(&self);
        }
        let bits = self.bits;
        let r = bits as i32;
        proof {
            lemma_u32_i32_bits(bits, r);
        }
        r
    }

    /// Gets the number of bytes needed to contain this signed integer value.
    pub fn byte_length(self) -> (r: u8)
        ensures
            r == spec_var_i28_length(self@),
            1 <= r <= 4,
    {
        let x = self.bits;
        if x <= 0x3F || x >= 0xFFFF_FFC0 {
            1
        } else if x <= 0x1FFF || x >= 0xFFFF_E000 {
            2
        } else if x <= 0xF_FFFF || x >= 0xFFF0_0000 {
            3
        } else {
            4
        }
    }

    /// Appends the variable-length encoding of this integer to `destination`.
    pub fn write_to(self, destination: &mut Vec<u8>)
        ensures
            final(destination)@ == old(destination)@ + spec_encode_var_i28(self@),
    {
        let x = self.bits;
        if x <= 0x3F || x >= 0xFFFF_FFC0 {
            destination.push(((x << 1u32) & 0xFF) as u8);
        } else if x <= 0x1FFF || x >= 0xFFFF_E000 {
            let w = (x << 2u32) | 1;
            destination.push((w & 0xFF) as u8);
            destination.push(((w >> 8u32) & 0xFF) as u8);
        } else if x <= 0xF_FFFF || x >= 0xFFF0_0000 {
            let w = (x << 3u32) | 3;
            destination.push((w & 0xFF) as u8);
            destination.push(((w >> 8u32) & 0xFF) as u8);
            destination.push(((w >> 16u32) & 0xFF) as u8);
        } else {
            let w = (x << 4u32) | 7;
            destination.push((w & 0xFF) as u8);
            destination.push(((w >> 8u32) & 0xFF) as u8);
            destination.push(((w >> 16u32) & 0xFF) as u8);
            destination.push(((w >> 24u32) & 0xFF) as u8);
        }
        assert(destination@ =~= old(destination)@ + spec_encode_var_i28(self@));
    }

    /// Reads a variable-length signed integer value from the start of `bytes`, returning it with the number of bytes it
    /// occupies.
    pub fn read_from(bytes: &[u8]) -> (r: Result<Result<(VarI28, usize), LengthError>, EndOfInputError>)
        ensures
            match (r, spec_read_var_i28(bytes@)) {
                (Ok(Ok((v, n))), Ok(Ok((sv, sn)))) => v@ == sv && n == sn,
                (Ok(Err(e)), Ok(Err(l))) => e.spec_length() == l,
                (Err(_), Err(_)) => true,
                _ => false,
            },
    {
        if bytes.len() == 0 {
            return Err(EndOfInputError);
        }
        let b0 = bytes[0];
        let t = count_trailing_ones(b0);
        if t >= 4 {
            return Ok(Err(LengthError { length: t + 1 }));
        }
        if bytes.len() < (t as usize) + 1 {
            return Err(EndOfInputError);
        }
        let x0 = b0 as u32;
        let x1: u32 = if t >= 1 { bytes[1] as u32 } else { 0 };
        let x2: u32 = if t >= 2 { bytes[2] as u32 } else { 0 };
        let x3: u32 = if t >= 3 { bytes[3] as u32 } else { 0 };
        let all = x0 | (x1 << 8u32) | (x2 << 16u32) | (x3 << 24u32);
        let shifted = all >> ((t as u32) + 1);
        let sign_mask: u32 = if t == 0 {
            0x80
        } else if t == 1 {
            0x8000
        } else if t == 2 {
            0x0080_0000
        } else {
            0x8000_0000
        };
        let extension: u32 = if t == 0 {
            0xFFFF_FF80
        } else if t == 1 {
            0xFFFF_C000
        } else if t == 2 {
            0xFFE0_0000
        } else {
            0xF000_0000
        };
        let bits = if all & sign_mask != 0 {
            shifted | extension
        } else {
            shifted
        };
        proof {
            let t1 = (t + 1) as u8;
            assert(x1 == (if t1 >= 2 { bytes@[1] as u32 } else { 0 }));
            assert(x2 == (if t1 >= 3 { bytes@[2] as u32 } else { 0 }));
            assert(x3 == (if t1 >= 4 { bytes@[3] as u32 } else { 0 }));
            assert(all == spec_le_u32(bytes@, t1));
            assert(bits == spec_var_i28_payload(bytes@, t));
            lemma_i28_payload_fits(x0, x1, x2, x3, t, bits);
        }
        Ok(Ok((VarI28 { bits }, (t as usize) + 1)))
    }

    /// Returns a `Vec` containing the representation of `self`.
    pub fn into_vec(self) -> (r: Vec<u8>)
        ensures
            r@ == spec_encode_var_i28(self@),
            fits_i28(self@),
    {
        proof {
            use_type_invariant(&self);
        }
        let mut bytes = Vec::with_capacity(1);
        self.write_to(&mut bytes);
        assert(bytes@ =~= spec_encode_var_i28(self@));
        bytes
    }

    /// Converts a non-negative signed integer into an unsigned one, returning `None` if it is negative.
    pub fn to_var_u28(self) -> (r: Option<VarU28>)
        ensures
            self@ < 0x8000_0000 ==> (r matches Some(u) && u@ == self@),
            self@ >= 0x8000_0000 ==> r is None,
    {
        proof {
            use_type_invariant(&self);
        }
        if self.bits < 0x8000_0000 {
            Some(VarU28::new(self.bits))
        } else {
            None
        }
    }
}

proof fn lemma_u32_i32_bits(bits: u32, value: i32)
    by (bit_vector)
    requires
        value == bits as i32,
        fits_i28(bits),
    ensures
        value as u32 == bits,
        -0x0800_0000 <= value && value < 0x0800_0000,
{
}

proof fn lemma_i28_payload_fits(x0: u32, x1: u32, x2: u32, x3: u32, t: u8, bits: u32)
    by (bit_vector)
    requires
        x0 < 256,
        x1 < 256,
        x2 < 256,
        x3 < 256,
        t <= 3,
        t == 0 ==> x1 == 0,
        t <= 1 ==> x2 == 0,
        t <= 2 ==> x3 == 0,
        bits == (if (x0 | (x1 << 8u32) | (x2 << 16u32) | (x3 << 24u32)) & i28_sign_mask(t) != 0 {
            ((x0 | (x1 << 8u32) | (x2 << 16u32) | (x3 << 24u32)) >> ((t + 1) as u32)) | i28_extension(t)
        } else {
            (x0 | (x1 << 8u32) | (x2 << 16u32) | (x3 << 24u32)) >> ((t + 1) as u32)
        }),
    ensures
        fits_i28(bits),
{
}


proof fn lemma_i28_bytes_1(x: u32, b0: u8)
    by (bit_vector)
    requires
        x <= 0x3F || x >= 0xFFFF_FFC0,
        b0 == ((x << 1u32) & 0xFF) as u8,
    ensures
        b0 & 1 == 0,
        ({
            let all = (b0 as u32) | (0u32 << 8u32) | (0u32 << 16u32) | (0u32 << 24u32);
            if all & 0x80 != 0 {
                (all >> 1u32) | 0xFFFF_FF80
            } else {
                all >> 1u32
            }
        }) == x,
{
}

proof fn lemma_i28_bytes_2(x: u32, b0: u8, b1: u8)
    by (bit_vector)
    requires
        !(x <= 0x3F || x >= 0xFFFF_FFC0),
        x <= 0x1FFF || x >= 0xFFFF_E000,
        b0 == (((x << 2u32) | 1) & 0xFF) as u8,
        b1 == ((((x << 2u32) | 1) >> 8u32) & 0xFF) as u8,
    ensures
        b0 & 1 != 0,
        b0 & 2 == 0,
        ({
            let all = (b0 as u32) | ((b1 as u32) << 8u32) | (0u32 << 16u32) | (0u32 << 24u32);
            if all & 0x8000 != 0 {
                (all >> 2u32) | 0xFFFF_C000
            } else {
                all >> 2u32
            }
        }) == x,
{
}

proof fn lemma_i28_bytes_3(x: u32, b0: u8, b1: u8, b2: u8)
    by (bit_vector)
    requires
        !(x <= 0x1FFF || x >= 0xFFFF_E000),
        x <= 0xF_FFFF || x >= 0xFFF0_0000,
        b0 == (((x << 3u32) | 3) & 0xFF) as u8,
        b1 == ((((x << 3u32) | 3) >> 8u32) & 0xFF) as u8,
        b2 == ((((x << 3u32) | 3) >> 16u32) & 0xFF) as u8,
    ensures
        b0 & 1 != 0,
        b0 & 2 != 0,
        b0 & 4 == 0,
        ({
            let all = (b0 as u32) | ((b1 as u32) << 8u32) | ((b2 as u32) << 16u32) | (0u32 << 24u32);
            if all & 0x0080_0000 != 0 {
                (all >> 3u32) | 0xFFE0_0000
            } else {
                all >> 3u32
            }
        }) == x,
{
}

proof fn lemma_i28_bytes_4(x: u32, b0: u8, b1: u8, b2: u8, b3: u8)
    by (bit_vector)
    requires
        !(x <= 0xF_FFFF || x >= 0xFFF0_0000),
        x < 0x0800_0000 || x >= 0xF800_0000,
        b0 == (((x << 4u32) | 7) & 0xFF) as u8,
        b1 == ((((x << 4u32) | 7) >> 8u32) & 0xFF) as u8,
        b2 == ((((x << 4u32) | 7) >> 16u32) & 0xFF) as u8,
        b3 == ((((x << 4u32) | 7) >> 24u32) & 0xFF) as u8,
    ensures
        b0 & 1 != 0,
        b0 & 2 != 0,
        b0 & 4 != 0,
        b0 & 8 == 0,
        ({
            let all = (b0 as u32) | ((b1 as u32) << 8u32) | ((b2 as u32) << 16u32) | ((b3 as u32) << 24u32);
            if all & 0x8000_0000 != 0 {
                (all >> 4u32) | 0xF000_0000
            } else {
                all >> 4u32
            }
        }) == x,
{
}

/// Every signed value of at most 28 bits, once written, is read back as the same value, taking up exactly the bytes that
/// were written, whatever bytes follow it.
pub proof fn lemma_var_i28_round_trip(x: u32, rest: Seq<u8>)
    requires
        fits_i28(x),
    ensures
        spec_read_var_i28(spec_encode_var_i28(x) + rest) == Ok::<Result<(u32, nat), u8>, ()>(
            Ok((x, spec_var_i28_length(x))),
        ),
        spec_encode_var_i28(x).len() == spec_var_i28_length(x),
{
    let e = spec_encode_var_i28(x);
    let s = e + rest;
    if x <= 0x3F || x >= 0xFFFF_FFC0 {
        lemma_i28_bytes_1(x, e[0]);
        assert(s[0] == e[0]);
    } else if x <= 0x1FFF || x >= 0xFFFF_E000 {
        lemma_i28_bytes_2(x, e[0], e[1]);
        assert(s[0] == e[0] && s[1] == e[1]);
    } else if x <= 0xF_FFFF || x >= 0xFFF0_0000 {
        lemma_i28_bytes_3(x, e[0], e[1], e[2]);
        assert(s[0] == e[0] && s[1] == e[1] && s[2] == e[2]);
    } else {
        lemma_i28_bytes_4(x, e[0], e[1], e[2], e[3]);
        assert(s[0] == e[0] && s[1] == e[1] && s[2] == e[2] && s[3] == e[3]);
    }
}

} // verus!

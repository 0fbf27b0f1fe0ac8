//! Provides functions for validating values and their expected types.
use vstd::prelude::*;
use crate::instruction::Value;
use crate::instruction::value::Constant;
use crate::instruction::value::ConstantFloat;
use crate::instruction::value::spec_constant_float_bits;
use crate::type_system::Type;
use crate::type_system::TypeView;
use crate::validation::error::InvalidValueError;

verus! {

/// Whether a value can be used where a value of the type is expected: an integer constant with any integer type, and a
/// floating-point constant with the floating-point type of the same bit width.
pub open spec fn spec_value_fits(value: Value, expected: TypeView) -> bool {
    match value {
        Value::Constant(Constant::Integer(_)) => expected is Integer || expected is Address,
        Value::Constant(Constant::Float(f)) => expected matches TypeView::Float { bits } && bits
            == spec_constant_float_bits(f),
    }
}

/// Checks that a value can be used where a value of the type is expected.
pub fn check_value(value: &Value, expected: &Type) -> (r: Result<(), InvalidValueError>)
    ensures
        r is Ok <==> spec_value_fits(*value, expected@),
        r matches Err(e) ==> e.value == *value,
{
    match value {
        Value::Constant(Constant::Integer(_)) => match expected {
            Type::Integer(_) => Ok(()),
            Type::Float(_) => Err(InvalidValueError { value: *value }),
        },
        Value::Constant(Constant::Float(float_value)) => match expected {
            Type::Float(float_type) => {
                if float_type.bit_width() == float_value.bit_width() {
                    Ok(())
                } else {
                    Err(InvalidValueError { value: *value })
                }
            },
            Type::Integer(_) => Err(InvalidValueError { value: *value }),
        },
    }
}

/// The position of the first value that cannot be used where a value of the corresponding type is expected, looking
/// from position `start` on.
pub open spec fn spec_first_misfit(values: Seq<Value>, expected: Seq<TypeView>, start: int) -> Option<nat>
    decreases values.len() - start,
{
    if start < 0 || start >= values.len() || start >= expected.len() {
        None
    } else if !spec_value_fits(values[start], expected[start]) {
        Some(start as nat)
    } else {
        spec_first_misfit(values, expected, start + 1)
    }
}

/// Checks each value against the type at the same position, failing at the first value that does not fit.
pub fn check_values(values: &[Value], expected: &[Type]) -> (r: Result<(), InvalidValueError>)
    requires
        values@.len() == expected@.len(),
    ensures
        match spec_first_misfit(values@, crate::binary::parser::spec_views(expected@), 0) {
            None => r is Ok,
            Some(j) => r == Err::<(), InvalidValueError>(InvalidValueError { value: values@[j as int] }),
        },
{
    let ghost types = crate::binary::parser::spec_views(expected@);
    let mut i: usize = 0;
    while i < values.len()
        invariant
            i <= values@.len(),
            values@.len() == expected@.len(),
            types == crate::binary::parser::spec_views(expected@),
            spec_first_misfit(values@, types, 0) == spec_first_misfit(values@, types, i as int),
        decreases values.len() - i,
    {
        let result = check_value(&values[i], &expected[i]);
        if result.is_err() {
            return result;
        }
        i = i + 1;
    }
    Ok(())
}

/// The number of bytes that a floating-point constant holds.
pub open spec fn spec_float_byte_count(f: ConstantFloat) -> nat {
    match f {
        ConstantFloat::Half(b) => b@.len(),
        ConstantFloat::Single(b) => b@.len(),
        ConstantFloat::Double(b) => b@.len(),
        ConstantFloat::Quadruple(b) => b@.len(),
    }
}

/// A floating-point constant fits exactly one type: the floating-point type with eight bits for each of its bytes, so
/// that a 32-bit constant does not fit a 64-bit float type. An integer constant fits exactly the integer and address
/// types, and never a floating-point type.
pub proof fn lemma_value_fits(value: Value, expected: TypeView)
    ensures
        value matches Value::Constant(Constant::Float(f)) ==> (spec_value_fits(value, expected) <==> expected
            == TypeView::Float { bits: 8 * spec_float_byte_count(f) }),
        value matches Value::Constant(Constant::Integer(_)) ==> (spec_value_fits(value, expected) <==> !(
        expected is Float)),
{
    broadcast use vstd::array::group_array_axioms;
    match value {
        Value::Constant(Constant::Float(f)) => {
            match f {
                ConstantFloat::Half(b) => assert(b@.len() == 2),
                ConstantFloat::Single(b) => assert(b@.len() == 4),
                ConstantFloat::Double(b) => assert(b@.len() == 8),
                ConstantFloat::Quadruple(b) => assert(b@.len() == 16),
            }
        },
        Value::Constant(Constant::Integer(_)) => {},
    }
}

/// Values checked against types fail exactly when some value does not fit the type at its position, and then at the
/// first such position.
pub proof fn lemma_first_misfit(values: Seq<Value>, expected: Seq<TypeView>, start: int)
    requires
        0 <= start <= values.len(),
        values.len() == expected.len(),
    ensures
        spec_first_misfit(values, expected, start) is None <==> forall|i: int|
            start <= i < values.len() ==> #[trigger] spec_value_fits(values[i], expected[i]),
        spec_first_misfit(values, expected, start) matches Some(j) ==> start <= j < values.len() && !spec_value_fits(
            values[j as int],
            expected[j as int],
        ) && forall|i: int| start <= i < j ==> #[trigger] spec_value_fits(values[i], expected[i]),
    decreases values.len() - start,
{
    if start < values.len() {
        lemma_first_misfit(values, expected, start + 1);
    }
}

} // verus!

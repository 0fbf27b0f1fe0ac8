//! Provides functions to determine whether two types are considered equal.
use vstd::prelude::*;
use crate::type_system::Type;

verus! {

/// Error type used when two types are not considered equal.
#[derive(Clone, Copy, Debug, PartialEq, Eq)]
pub struct TypeMismatchError {
    pub expected: Type,
    pub actual: Type,
}

impl TypeMismatchError {
    /// The message describing this error: the type that was expected, and the one that was found.
    pub fn message(&self) -> (r: String)
        ensures
            r@ == "expected "@ + crate::type_system::spec_type_text(self.expected@) + ", but got "@
                + crate::type_system::spec_type_text(self.actual@),
    {
        let expected = self.expected.to_text();
        let actual = self.actual.to_text();
        let mut r = crate::text::concat3("expected ", expected.as_str(), ", but got ");
        crate::text::push_str(&mut r, actual.as_str());
        r
    }
}

/// Checks that two types are the same.
pub fn are_equal(expected: &Type, actual: &Type) -> (r: Result<(), TypeMismatchError>)
    ensures
        r is Ok <==> *expected == *actual,
        r matches Err(e) ==> e.expected == *expected && e.actual == *actual,
{
    if *expected != *actual {
        return Err(TypeMismatchError { expected: *expected, actual: *actual });
    }
    Ok(())
}

} // verus!

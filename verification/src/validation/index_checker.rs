//! Provides functions for validating indices to content within a module.
use vstd::prelude::*;
use crate::function::Body;
use crate::function::Signature;
use crate::function::Template;
use crate::index;
use crate::type_system::Type;
use crate::validation::ModuleContents;
use crate::validation::error::IndexKind;
use crate::validation::error::InvalidIndexError;
use crate::validation::error::spec_invalid_index;

verus! {

/// Gets the type with the given index.
pub fn get_type<'a>(index: index::Type, contents: &'a ModuleContents) -> (r: Result<&'a Type, InvalidIndexError>)
    ensures
        index@ < contents.types@.len() ==> r == Ok::<&Type, InvalidIndexError>(&contents.types@[index@ as int]),
        index@ >= contents.types@.len() ==> r == Err::<&Type, InvalidIndexError>(
            spec_invalid_index(IndexKind::Type, index@, contents.types@.len()),
        ),
{
    let i = index.get();
    if i < contents.types.len() {
        Ok(&contents.types[i])
    } else {
        Err(InvalidIndexError::new(IndexKind::Type, i, contents.types.len()))
    }
}

/// Gets the function signature with the given index.
pub fn get_function_signature<'a>(index: index::FunctionSignature, contents: &'a ModuleContents) -> (r: Result<
    &'a Signature,
    InvalidIndexError,
>)
    ensures
        index@ < contents.function_signatures@.len() ==> (r matches Ok(s) && s == &contents.function_signatures@[index@ as int]),
        index@ >= contents.function_signatures@.len() ==> r == Err::<&Signature, InvalidIndexError>(
            spec_invalid_index(IndexKind::FunctionSignature, index@, contents.function_signatures@.len()),
        ),
{
    let i = index.get();
    if i < contents.function_signatures.len() {
        Ok(&contents.function_signatures[i])
    } else {
        Err(InvalidIndexError::new(IndexKind::FunctionSignature, i, contents.function_signatures.len()))
    }
}

/// Gets the function body with the given index.
pub fn get_function_body<'a>(index: index::FunctionBody, contents: &'a ModuleContents) -> (r: Result<
    &'a Body,
    InvalidIndexError,
>)
    ensures
        index@ < contents.function_bodies@.len() ==> (r matches Ok(b) && b == &contents.function_bodies@[index@ as int]),
        index@ >= contents.function_bodies@.len() ==> r == Err::<&Body, InvalidIndexError>(
            spec_invalid_index(IndexKind::FunctionBody, index@, contents.function_bodies@.len()),
        ),
{
    let i = index.get();
    if i < contents.function_bodies.len() {
        Ok(&contents.function_bodies[i])
    } else {
        Err(InvalidIndexError::new(IndexKind::FunctionBody, i, contents.function_bodies.len()))
    }
}

/// Gets the function template with the given index.
pub fn get_function_template<'a>(index: index::FunctionTemplate, contents: &'a ModuleContents) -> (r: Result<
    &'a Template,
    InvalidIndexError,
>)
    ensures
        index@ < contents.function_templates@.len() ==> r == Ok::<&Template, InvalidIndexError>(
            &contents.function_templates@[index@ as int],
        ),
        index@ >= contents.function_templates@.len() ==> r == Err::<&Template, InvalidIndexError>(
            spec_invalid_index(IndexKind::FunctionTemplate, index@, contents.function_templates@.len()),
        ),
{
    match contents.function_templates.get_template(index) {
        Some(template) => Ok(template),
        None => Err(InvalidIndexError::new(IndexKind::FunctionTemplate, index.get(), contents.function_templates.count())),
    }
}

} // verus!

//! Manipulation of indices used to refer to the different contents of a module.
use vstd::prelude::*;
use std::marker::PhantomData;

verus! {

/// Marker trait that keeps [`IndexSpace`] from being implemented outside of this crate.
pub trait Sealed {

}

/// Specifies the names of various kinds of indices.
///
/// This trait is sealed and is not meant to be implemented outside of this crate.
pub trait IndexSpace: Sealed {
    /// The name of the kind of content referred to by indices of this space, in specifications.
    spec fn spec_name() -> Seq<char>;

    /// The name of the kind of content referred to by indices of this space.
    fn name() -> (r: &'static str)
        ensures
            r@ == Self::spec_name(),
    ;
}

/// An index to some content within an IL4IL module.
#[derive(Debug, Hash)]
pub struct Index<S: IndexSpace> {
    index: usize,
    _phantom: PhantomData<S>,
}

impl<S: IndexSpace> View for Index<S> {
    type V = usize;

    closed spec fn view(&self) -> usize {
        self.index
    }
}

impl<S: IndexSpace> Clone for Index<S> {
    fn clone(&self) -> (r: Self)
        ensures
            r@ == self@,
    {
        Index { index: self.index, _phantom: PhantomData }
    }
}

impl<S: IndexSpace> Copy for Index<S> {

}

impl<S: IndexSpace> PartialEq for Index<S> {
    fn eq(&self, other: &Self) -> (r: bool) {
        self.index == other.index
    }
}

impl<S: IndexSpace> vstd::std_specs::cmp::PartialEqSpecImpl for Index<S> {
    open spec fn obeys_eq_spec() -> bool {
        true
    }

    open spec fn eq_spec(&self, other: &Self) -> bool {
        self@ == other@
    }
}

impl<S: IndexSpace> Eq for Index<S> {

}

impl<S: IndexSpace> Index<S> {
    /// Creates an index.
    pub fn new(index: usize) -> (r: Self)
        ensures
            r@ == index,
    {
        Index { index, _phantom: PhantomData }
    }

    /// The numeric value of this index.
    pub fn get(self) -> (r: usize)
        ensures
            r == self@,
    {
        self.index
    }

    /// Describes this index, as the name of its space followed by `#` and its number.
    pub fn describe(self) -> (r: String)
        ensures
            r@ == S::spec_name() + seq![' ', '#'] + crate::text::spec_decimal(self@ as nat),
    {
        let mut s = String::new();
        crate::text::push_str(&mut s, S::name());
        crate::text::push_char(&mut s, ' ');
        crate::text::push_char(&mut s, '#');
        crate::text::push_decimal(&mut s, self.index as u64);
        assert(s@ =~= S::spec_name() + seq![' ', '#'] + crate::text::spec_decimal(self@ as nat));
        s
    }
}

/// Index space of the types within a module's type sections.
#[derive(Clone, Copy, Debug, PartialEq, Eq, Hash)]
pub struct TypeSpace;

/// Index space of the function signatures within a module.
#[derive(Clone, Copy, Debug, PartialEq, Eq, Hash)]
pub struct FunctionSignatureSpace;

/// Index space of the function bodies within a module's code sections.
#[derive(Clone, Copy, Debug, PartialEq, Eq, Hash)]
pub struct FunctionBodySpace;

/// Index space of function templates, which are function definitions and function imports.
#[derive(Clone, Copy, Debug, PartialEq, Eq, Hash)]
pub struct FunctionTemplateSpace;

/// Index space of function instantiations.
#[derive(Clone, Copy, Debug, PartialEq, Eq, Hash)]
pub struct FunctionInstantiationSpace;

/// Index space of the basic blocks within a function body.
#[derive(Clone, Copy, Debug, PartialEq, Eq, Hash)]
pub struct BlockSpace;

/// Index space of the modules imported by a module.
#[derive(Clone, Copy, Debug, PartialEq, Eq, Hash)]
pub struct ModuleSpace;

impl Sealed for TypeSpace {

}

impl IndexSpace for TypeSpace {
    open spec fn spec_name() -> Seq<char> {
        "type"@
    }

    fn name() -> (r: &'static str) {
        "type"
    }
}

impl Sealed for FunctionSignatureSpace {

}

impl IndexSpace for FunctionSignatureSpace {
    open spec fn spec_name() -> Seq<char> {
        "function signature"@
    }

    fn name() -> (r: &'static str) {
        "function signature"
    }
}

impl Sealed for FunctionBodySpace {

}

impl IndexSpace for FunctionBodySpace {
    open spec fn spec_name() -> Seq<char> {
        "function body"@
    }

    fn name() -> (r: &'static str) {
        "function body"
    }
}

impl Sealed for FunctionTemplateSpace {

}

impl IndexSpace for FunctionTemplateSpace {
    open spec fn spec_name() -> Seq<char> {
        "function template"@
    }

    fn name() -> (r: &'static str) {
        "function template"
    }
}

impl Sealed for FunctionInstantiationSpace {

}

impl IndexSpace for FunctionInstantiationSpace {
    open spec fn spec_name() -> Seq<char> {
        "function instantiation"@
    }

    fn name() -> (r: &'static str) {
        "function instantiation"
    }
}

impl Sealed for BlockSpace {

}

impl IndexSpace for BlockSpace {
    open spec fn spec_name() -> Seq<char> {
        "block"@
    }

    fn name() -> (r: &'static str) {
        "block"
    }
}

impl Sealed for ModuleSpace {

}

impl IndexSpace for ModuleSpace {
    open spec fn spec_name() -> Seq<char> {
        "module"@
    }

    fn name() -> (r: &'static str) {
        "module"
    }
}

/// Type indices refer to the contents of all type sections within a module, with `0` referring to the first type of the first type
/// section.
pub type Type = Index<TypeSpace>;

/// Function signature indices refer to the contents of all function signature sections within a module.
pub type FunctionSignature = Index<FunctionSignatureSpace>;

/// Function body indices refer to the contents of all code sections within a module.
pub type FunctionBody = Index<FunctionBodySpace>;

/// Function template indices refer to the function definitions and imports of a module, in the order they appear.
pub type FunctionTemplate = Index<FunctionTemplateSpace>;

/// Function instantiation indices refer to the contents of all function instantiation sections within a module.
pub type FunctionInstantiation = Index<FunctionInstantiationSpace>;

/// Block indices refer to the basic blocks of a function body, with `0` referring to the entry block.
pub type Block = Index<BlockSpace>;

/// Module indices refer to the modules imported by a module.
pub type Module = Index<ModuleSpace>;

} // verus!

//! Module for manipulating IL4IL module names.
use vstd::prelude::*;
use crate::identifier::Identifier;

verus! {

/// Specifies the name of a module.
#[derive(Debug, PartialEq, Eq)]
pub struct ModuleName {
    pub name: Identifier,
}

impl Clone for ModuleName {
    fn clone(&self) -> (r: Self)
        ensures
            r@ == self@,
    {
        ModuleName { name: self.name.clone() }
    }
}

impl ModuleName {
    /// Creates a module name.
    pub fn from_name(name: Identifier) -> (r: Self)
        ensures
            r.name@ == name@,
    {
        Self { name }
    }
}

impl View for ModuleName {
    type V = Seq<char>;

    open spec fn view(&self) -> Seq<char> {
        self.name@
    }
}

} // verus!

//! The state of an assembler session: the module assembled last, and the errors of the last attempt.
use vstd::prelude::*;
use crate::assembly::assembler::spec_module_of;
use crate::assembly::error::spec_error_views;
use crate::assembly::error::Error;
use crate::assembly::lexer::spec_tokenize;
use crate::assembly::parser::spec_parse;
use crate::assembly::spec_assembly_handled;
use crate::module::Module;

verus! {

/// The errors of an attempt to assemble a text; none when it succeeded.
#[derive(Debug)]
pub struct AssemblerErrors {
    errors: Vec<Error>,
}

impl AssemblerErrors {
    /// The errors, in specifications.
    pub closed spec fn spec_errors(&self) -> Seq<Error> {
        self.errors@
    }

    /// The errors.
    pub fn errors(&self) -> (r: &Vec<Error>)
        ensures
            r@ == self.spec_errors(),
    {
        &self.errors
    }
}

impl Default for AssemblerErrors {
    fn default() -> (r: Self)
        ensures
            r.spec_errors() == Seq::<Error>::empty(),
    {
        AssemblerErrors { errors: Vec::new() }
    }
}

/// Encapsulates all assembler state: the module assembled last, if any.
#[derive(Debug)]
pub struct Playground {
    module: Option<Module>,
}

impl Playground {
    /// The module assembled last, in specifications.
    pub closed spec fn spec_module(&self) -> Option<Module> {
        self.module
    }

    /// A session in which nothing has been assembled yet.
    pub fn new() -> (r: Self)
        ensures
            r.spec_module() is None,
    {
        Playground { module: None }
    }

    /// The module assembled last, if any.
    pub fn module(&self) -> (r: &Option<Module>)
        ensures
            *r == self.spec_module(),
    {
        &self.module
    }

    /// Assembles the text: where it has no errors, its module becomes the one assembled last and no errors are
    /// returned; otherwise the errors are returned and the module assembled last stays as it was.
    pub fn assemble(&mut self, s: &str) -> (r: AssemblerErrors)
        requires
            spec_assembly_handled(s@),
        ensures
            ({
                let (tree, errors) = spec_parse(spec_tokenize(s@));
                &&& spec_error_views(r.spec_errors()) == errors
                &&& errors.len() == 0 ==> (final(self).spec_module() matches Some(m) && m@ == spec_module_of(tree))
                &&& errors.len() > 0 ==> final(self).spec_module() == old(self).spec_module()
            }),
    {
        match crate::assembly::assemble(s) {
            Ok(module) => {
                self.module = Some(module);
                let r = AssemblerErrors::default();
                assert(spec_error_views(r.spec_errors()) =~= Seq::<crate::assembly::error::ErrorView>::empty());
                r
            },
            Err(e) => AssemblerErrors { errors: e.into_assembly_error() },
        }
    }
}

} // verus!

//! The IL4IL bytecode assembler: text is split into tokens, the tokens are parsed into an abstract syntax tree, and
//! the tree is assembled into a module.
pub mod assembler;
pub mod error;
pub mod lexer;
pub mod location;
pub mod parser;
pub mod syntax;

use vstd::prelude::*;
use vstd::utf8::encode_utf8;
use crate::assembly::assembler::spec_module_of;
use crate::assembly::error::spec_error_views;
use crate::assembly::error::Error;
use crate::assembly::lexer::spec_tokenize;
use crate::assembly::parser::node_parser::spec_nodes_complete;
use crate::assembly::parser::spec_parse;
use crate::module::Module;

verus! {

/// The error of [`assemble`].
#[derive(Debug)]
pub enum FullError {
    /// Assembly failed with one or more errors.
    AssemblyFailed(Vec<Error>),
}

impl FullError {
    /// The errors that assembly failed with.
    pub fn into_assembly_error(self) -> (r: Vec<Error>)
        ensures
            self matches FullError::AssemblyFailed(errors) && r == errors,
    {
        match self {
            FullError::AssemblyFailed(errors) => errors,
        }
    }
}

/// The texts of the errors, each followed by a line break.
pub open spec fn spec_errors_text(errors: Seq<crate::assembly::error::ErrorView>) -> Seq<char>
    decreases errors.len(),
{
    if errors.len() == 0 {
        Seq::empty()
    } else {
        spec_errors_text(errors.drop_last()) + crate::assembly::error::spec_error_text(errors.last()) + seq!['\n']
    }
}

impl FullError {
    /// The text of the error: the text of each error that assembly failed with, each on a line of its own.
    pub fn to_text(&self) -> (r: String)
        ensures
            self matches FullError::AssemblyFailed(errors) && r@ == spec_errors_text(spec_error_views(errors@)),
    {
        match self {
            FullError::AssemblyFailed(errors) => {
                let ghost views = spec_error_views(errors@);
                let mut r = String::new();
                let mut i: usize = 0;
                assert(views.take(0) =~= Seq::<crate::assembly::error::ErrorView>::empty());
                while i < errors.len()
                    invariant
                        i <= errors@.len(),
                        views == spec_error_views(errors@),
                        r@ == spec_errors_text(views.take(i as int)),
                    decreases errors@.len() - i,
                {
                    let text = errors[i].to_text();
                    crate::text::push_str(&mut r, text.as_str());
                    crate::text::push_char(&mut r, '\n');
                    assert(views.take(i + 1).drop_last() =~= views.take(i as int));
                    assert(views.take(i + 1).last() == errors@[i as int]@);
                    i = i + 1;
                }
                assert(views.take(i as int) =~= views);
                r
            },
        }
    }
}

/// Whether the assembler handles the text: its length fits the machine, and its tokens finish every node they start.
pub open spec fn spec_assembly_handled(source: Seq<char>) -> bool {
    &&& encode_utf8(source).len() <= isize::MAX
    &&& spec_nodes_complete(spec_tokenize(source).offsets.lines, spec_tokenize(source).tokens)
}

/// Given IL4IL assembly, produces an IL4IL module.
///
/// Any errors found while parsing are collected and returned; the module is returned only when there are none.
pub fn assemble(source: &str) -> (r: Result<Module, FullError>)
    requires
        spec_assembly_handled(source@),
    ensures
        ({
            let (tree, errors) = spec_parse(spec_tokenize(source@));
            match r {
                Ok(module) => errors.len() == 0 && module@ == spec_module_of(tree),
                Err(FullError::AssemblyFailed(found)) => errors.len() > 0 && spec_error_views(found@) == errors,
            }
        }),
{
    let mut errors: Vec<Error> = Vec::new();
    let tokens = lexer::tokenize(source);
    let tree = parser::parse(tokens, &mut errors);
    let output = assembler::assemble(tree, &mut errors);
    assert(spec_error_views(Seq::<Error>::empty()) =~= Seq::<crate::assembly::error::ErrorView>::empty());
    if errors.len() == 0 {
        Ok(output)
    } else {
        Err(FullError::AssemblyFailed(errors))
    }
}

/// Assembles the text where the assembler handles it (see [`assemble`]); `None` where it does not.
pub fn try_assemble(source: &str) -> (r: Option<Result<Module, FullError>>)
    ensures
        r is Some <==> spec_assembly_handled(source@),
        ({
            let (tree, errors) = spec_parse(spec_tokenize(source@));
            match r {
                Some(Ok(module)) => errors.len() == 0 && module@ == spec_module_of(tree),
                Some(Err(FullError::AssemblyFailed(found))) => errors.len() > 0 && spec_error_views(found@)
                    == errors,
                None => true,
            }
        }),
{
    if source.as_bytes().len() > isize::MAX as usize {
        return None;
    }
    let tokens = lexer::tokenize(source);
    if !parser::node_parser::nodes_complete(tokens.tokens(), tokens.offsets()) {
        return None;
    }
    Some(assemble(source))
}

} // verus!

//! Parsing of IL4IL assembly: tokens are grouped into nodes, and nodes are turned into the abstract syntax tree.
pub mod node_parser;
pub mod tree_parser;

use vstd::prelude::*;
use crate::assembly::error::spec_error_views;
use crate::assembly::error::Error;
use crate::assembly::error::ErrorView;
use crate::assembly::lexer;
use crate::assembly::lexer::spec_token_views;
use crate::assembly::lexer::spec_tokens_within;
use crate::assembly::lexer::Offsets;
use crate::assembly::lexer::OffsetsView;
use crate::assembly::parser::node_parser::spec_nodes_complete;
use crate::assembly::parser::node_parser::spec_parse_nodes;
use crate::assembly::parser::tree_parser::spec_parse_tree;
use crate::assembly::syntax::structure::spec_located_node_views;
use crate::assembly::syntax::tree::Root;
use crate::assembly::syntax::tree::TopLevelDirectiveView;

verus! {

/// The output of the parser, in specifications: the abstract syntax tree and the offsets of the lines.
pub struct OutputView {
    pub tree: Seq<(TopLevelDirectiveView, nat, nat)>,
    pub offsets: OffsetsView,
}

/// The abstract syntax tree of a program, with the offsets of its lines.
#[derive(Debug)]
pub struct Output {
    offsets: Offsets,
    tree: Root,
}

impl View for Output {
    type V = OutputView;

    closed spec fn view(&self) -> OutputView {
        OutputView { tree: self.tree@, offsets: self.offsets@ }
    }
}

impl Output {
    /// The abstract syntax tree.
    pub fn tree(&self) -> (r: &Root)
        ensures
            r@ == self@.tree,
    {
        &self.tree
    }

    /// The offsets of the lines.
    pub fn offsets(&self) -> (r: &Offsets)
        ensures
            r@ == self@.offsets,
    {
        &self.offsets
    }

    /// Returns the abstract syntax tree.
    pub fn into_tree(self) -> (r: Root)
        ensures
            r@ == self@.tree,
    {
        self.tree
    }
}

/// What parsing the output of the lexer gives: the abstract syntax tree, and the errors found, first those of grouping
/// the tokens into nodes, then those of reading the nodes.
pub open spec fn spec_parse(input: lexer::OutputView) -> (Seq<(TopLevelDirectiveView, nat, nat)>, Seq<ErrorView>) {
    let nodes = spec_parse_nodes(input.offsets.lines, input.tokens)->Some_0;
    let (tree, errors) = spec_parse_tree(input.offsets.lines, nodes.contents);
    (tree, nodes.errors + errors)
}

/// Parses the output of the lexer, adding the errors that it finds to `errors`.
///
/// The tokens must be handled and finish every node (see [`node_parser::parse`]).
pub fn parse(inputs: lexer::Output, errors: &mut Vec<Error>) -> (r: Output)
    requires
        spec_tokens_within(inputs@),
        spec_nodes_complete(inputs@.offsets.lines, inputs@.tokens),
    ensures
        r@ == (OutputView { tree: spec_parse(inputs@).0, offsets: inputs@.offsets }),
        spec_error_views(final(errors)@) == spec_error_views(old(errors)@) + spec_parse(inputs@).1,
{
    let ghost input = inputs@;
    let (tokens, offsets) = inputs.into_parts();
    let ghost old_errors = spec_error_views(errors@);
    let structure = node_parser::parse(tokens.as_slice(), &offsets, errors);
    let ghost middle = spec_error_views(errors@);
    proof {
        let views = spec_token_views(tokens@);
        assert forall|k: int| #![trigger views[k]] 0 <= k < views.len() implies views[k].1 < usize::MAX as nat
            && views[k].2 < usize::MAX as nat by {}
        node_parser::lemma_parsed_nodes_handled(offsets@.lines, views, usize::MAX as nat);
    }
    let tree = tree_parser::parse(&structure, &offsets, errors);
    proof {
        let nodes = spec_parse_nodes(input.offsets.lines, input.tokens)->Some_0;
        assert(spec_error_views(errors@) =~= old_errors + (nodes.errors + spec_parse_tree(
            input.offsets.lines,
            spec_located_node_views(structure.contents@),
        ).1));
    }
    Output { offsets, tree }
}

} // verus!

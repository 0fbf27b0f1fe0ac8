//! Groups tokens into nodes: a directive, its attributes, and either a semicolon or a block between curly brackets.
use vstd::prelude::*;
use std::ops::Range;
use crate::assembly::error::spec_error_at;
use crate::assembly::error::spec_error_views;
use crate::assembly::error::Error;
use crate::assembly::error::ErrorView;
use crate::assembly::lexer::spec_token_text;
use crate::assembly::lexer::spec_token_views;
use crate::assembly::lexer::spec_tokens_before;
use crate::assembly::lexer::LineView;
use crate::assembly::lexer::Offsets;
use crate::assembly::lexer::Token;
use crate::assembly::lexer::TokenView;
use crate::assembly::syntax::structure::spec_attribute_views;
use crate::assembly::syntax::structure::spec_located_node_views;
use crate::assembly::syntax::structure::Attribute;
use crate::assembly::syntax::structure::AttributeView;
use crate::assembly::syntax::structure::Node;
use crate::assembly::syntax::structure::NodeContents;
use crate::assembly::syntax::structure::NodeContentsView;
use crate::assembly::syntax::structure::NodeKind;
use crate::assembly::syntax::structure::NodeKindView;
use crate::assembly::syntax::structure::NodeView;
use crate::assembly::syntax::structure::Tree;
use crate::assembly::syntax::Located;

verus! {

/// A node whose end has not been read yet, in specifications: its kind, its attributes so far, and whether its block
/// has been opened.
pub struct PendingView {
    pub kind: (NodeKindView, nat, nat),
    pub attributes: Seq<(AttributeView, nat, nat)>,
    pub block: bool,
}

/// The state of the node parser, in specifications: the nodes read so far, the node being read, and the errors found.
pub struct NodeParseView {
    pub contents: Seq<(NodeView, nat, nat)>,
    pub pending: Option<PendingView>,
    pub errors: Seq<ErrorView>,
}

/// Reads one token with its byte offsets; `None` where the token is not handled.
///
/// Outside a node, a directive starts a node, a semicolon is ignored, and anything else is an error. Inside a node, a
/// word is an attribute, an unknown token is an error, a semicolon ends a node without a block, an opening bracket
/// starts its block (an error when the block is already open), and a closing bracket ends its block.
pub open spec fn spec_node_step(lines: Seq<LineView>, st: NodeParseView, token: (TokenView, nat, nat)) -> Option<
    NodeParseView,
> {
    let start = token.1;
    let end = token.2;
    match st.pending {
        Some(p) => match token.0 {
            TokenView::Unknown(u) => Some(
                NodeParseView {
                    errors: st.errors.push(spec_error_at(lines, start, end, "unexpected '"@ + u + "'"@)),
                    ..st
                },
            ),
            TokenView::Semicolon => if p.block {
                Some(st)
            } else {
                Some(
                    NodeParseView {
                        contents: st.contents.push(
                            (NodeView { kind: p.kind, contents: NodeContentsView::Line(p.attributes) }, p.kind.1, end),
                        ),
                        pending: None,
                        ..st
                    },
                )
            },
            TokenView::OpenBracket => if p.block {
                Some(
                    NodeParseView {
                        errors: st.errors.push(
                            spec_error_at(lines, start, end, "unexpected opening bracket in block"@),
                        ),
                        ..st
                    },
                )
            } else {
                Some(NodeParseView { pending: Some(PendingView { block: true, ..p }), ..st })
            },
            TokenView::CloseBracket => if p.block {
                Some(
                    NodeParseView {
                        contents: st.contents.push(
                            (
                                NodeView {
                                    kind: p.kind,
                                    contents: NodeContentsView::Block(p.attributes, Seq::empty()),
                                },
                                p.kind.1,
                                end,
                            ),
                        ),
                        pending: None,
                        ..st
                    },
                )
            } else {
                None
            },
            TokenView::Word(w) => Some(
                NodeParseView {
                    pending: Some(
                        PendingView { attributes: p.attributes.push((AttributeView::Word(w), start, end)), ..p },
                    ),
                    ..st
                },
            ),
            TokenView::Directive(_) => None,
        },
        None => match token.0 {
            TokenView::Semicolon => Some(st),
            TokenView::Directive(name) => Some(
                NodeParseView {
                    pending: Some(
                        PendingView {
                            kind: (NodeKindView::Directive(name), start, end),
                            attributes: Seq::empty(),
                            block: false,
                        },
                    ),
                    ..st
                },
            ),
            _ => Some(
                NodeParseView {
                    errors: st.errors.push(
                        spec_error_at(
                            lines,
                            start,
                            end,
                            "unexpected '"@ + spec_token_text(token.0) + "', expected directive or word"@,
                        ),
                    ),
                    ..st
                },
            ),
        },
    }
}

/// Reads the tokens in order, from a state with no nodes and no errors; `None` where a token is not handled.
pub open spec fn spec_parse_nodes(lines: Seq<LineView>, tokens: Seq<(TokenView, nat, nat)>) -> Option<NodeParseView>
    decreases tokens.len(),
{
    if tokens.len() == 0 {
        Some(NodeParseView { contents: Seq::empty(), pending: None, errors: Seq::empty() })
    } else {
        match spec_parse_nodes(lines, tokens.drop_last()) {
            Some(st) => spec_node_step(lines, st, tokens.last()),
            None => None,
        }
    }
}

/// Whether the tokens are all handled and leave no node unfinished.
pub open spec fn spec_nodes_complete(lines: Seq<LineView>, tokens: Seq<(TokenView, nat, nat)>) -> bool {
    spec_parse_nodes(lines, tokens) matches Some(st) && st.pending is None
}

/// A token that is not handled leaves every longer sequence of tokens unhandled.
proof fn lemma_unhandled_stays(lines: Seq<LineView>, tokens: Seq<(TokenView, nat, nat)>, i: int)
    requires
        0 <= i <= tokens.len(),
        spec_parse_nodes(lines, tokens.take(i)) is None,
    ensures
        spec_parse_nodes(lines, tokens) is None,
    decreases tokens.len() - i,
{
    if i < tokens.len() {
        assert(tokens.take(i + 1).drop_last() =~= tokens.take(i));
        lemma_unhandled_stays(lines, tokens, i + 1);
    } else {
        assert(tokens.take(i) =~= tokens);
    }
}

/// A node whose end has not been read yet.
struct Pending {
    kind: Located<NodeKind>,
    attributes: Vec<Located<Attribute>>,
    block: bool,
}

impl View for Pending {
    type V = PendingView;

    closed spec fn view(&self) -> PendingView {
        PendingView { kind: self.kind@, attributes: spec_attribute_views(self.attributes@), block: self.block }
    }
}

/// The view of the node being read, if there is one.
spec fn spec_pending(pending: Option<Pending>) -> Option<PendingView> {
    match pending {
        Some(p) => Some(p@),
        None => None,
    }
}

/// Adds a node to the nodes read so far.
fn push_node(contents: &mut Vec<Located<Node>>, node: Node, offsets: Range<usize>)
    ensures
        spec_located_node_views(final(contents)@) == spec_located_node_views(old(contents)@).push(
            (node@, offsets.start as nat, offsets.end as nat),
        ),
{
    let ghost before = contents@;
    let located = Located::new(node, offsets);
    contents.push(located);
    assert(contents@.subrange(0, contents@.len() - 1) =~= before);
}

/// Reads one token; gives the node being read afterwards.
#[verifier::spinoff_prover]
fn parse_token(
    pending: Option<Pending>,
    token: &Token,
    offsets: &Range<usize>,
    lines: &Offsets,
    contents: &mut Vec<Located<Node>>,
    errors: &mut Vec<Error>,
) -> (r: Option<Pending>)
    requires
        offsets.start <= offsets.end < usize::MAX,
        spec_node_step(
            lines@.lines,
            NodeParseView {
                contents: spec_located_node_views(old(contents)@),
                pending: spec_pending(pending),
                errors: spec_error_views(old(errors)@),
            },
            (token@, offsets.start as nat, offsets.end as nat),
        ) is Some,
    ensures
        spec_node_step(
            lines@.lines,
            NodeParseView {
                contents: spec_located_node_views(old(contents)@),
                pending: spec_pending(pending),
                errors: spec_error_views(old(errors)@),
            },
            (token@, offsets.start as nat, offsets.end as nat),
        ) == Some(
            NodeParseView {
                contents: spec_located_node_views(final(contents)@),
                pending: spec_pending(r),
                errors: spec_error_views(final(errors)@),
            },
        ),
{
    let ghost old_errors = errors@;
    match pending {
        Some(p) => match token {
            Token::Unknown(u) => {
                let message = crate::text::concat3("unexpected '", u.as_str(), "'");
                errors.push(Error::at(lines, offsets.start..offsets.end, message));
                assert(spec_error_views(errors@) =~= spec_error_views(old_errors).push(errors@.last()@));
                Some(p)
            },
            Token::Semicolon => {
                if p.block {
                    Some(p)
                } else {
                    let start = p.kind.offsets.start;
                    let node = Node { kind: p.kind, contents: NodeContents::Line(p.attributes) };
                    push_node(contents, node, start..offsets.end);
                    None
                }
            },
            Token::OpenBracket => {
                if p.block {
                    let message = std::string::String::from_str("unexpected opening bracket in block");
                    errors.push(Error::at(lines, offsets.start..offsets.end, message));
                    assert(spec_error_views(errors@) =~= spec_error_views(old_errors).push(errors@.last()@));
                    Some(p)
                } else {
                    Some(Pending { kind: p.kind, attributes: p.attributes, block: true })
                }
            },
            Token::CloseBracket => {
                let start = p.kind.offsets.start;
                let node = Node {
                    kind: p.kind,
                    contents: NodeContents::Block { attributes: p.attributes, nodes: Vec::new() },
                };
                assert(spec_located_node_views(Seq::<Located<Node>>::empty()) =~= Seq::<(NodeView, nat, nat)>::empty());
                push_node(contents, node, start..offsets.end);
                None
            },
            Token::Word(w) => {
                let mut attributes = p.attributes;
                let ghost before = attributes@;
                attributes.push(Located::new(Attribute::Word(w.clone()), offsets.start..offsets.end));
                assert(spec_attribute_views(attributes@) =~= spec_attribute_views(before).push(
                    attributes@.last()@,
                ));
                Some(Pending { kind: p.kind, attributes, block: p.block })
            },
            Token::Directive(_) => Some(p),
        },
        None => match token {
            Token::Semicolon => None,
            Token::Directive(name) => {
                let kind = Located::new(NodeKind::Directive(name.clone()), offsets.start..offsets.end);
                let r = Pending { kind, attributes: Vec::new(), block: false };
                assert(spec_attribute_views(r.attributes@) =~= Seq::<(AttributeView, nat, nat)>::empty());
                Some(r)
            },
            _ => {
                let text = token.to_text();
                let message = crate::text::concat3("unexpected '", text.as_str(), "', expected directive or word");
                errors.push(Error::at(lines, offsets.start..offsets.end, message));
                assert(spec_error_views(errors@) =~= spec_error_views(old_errors).push(errors@.last()@));
                None
            },
        },
    }
}

/// Groups the tokens into nodes, adding the errors that it finds to `errors`.
///
/// The tokens must be handled and finish every node: a directive inside a node, a closing bracket in a node that has
/// no block, and a node left unfinished at the end are not handled.
#[verifier::spinoff_prover]
pub fn parse(tokens: &[(Token, Range<usize>)], offsets: &Offsets, errors: &mut Vec<Error>) -> (r: Tree)
    requires
        offsets@.byte_length < usize::MAX,
        spec_tokens_before(spec_token_views(tokens@), offsets@.byte_length),
        spec_nodes_complete(offsets@.lines, spec_token_views(tokens@)),
    ensures
        spec_parse_nodes(offsets@.lines, spec_token_views(tokens@)) matches Some(st) && spec_located_node_views(
            r.contents@,
        ) == st.contents && spec_error_views(final(errors)@) == spec_error_views(old(errors)@) + st.errors,
{
    let ghost views = spec_token_views(tokens@);
    let ghost lines = offsets@.lines;
    let ghost old_errors = spec_error_views(errors@);
    let mut contents: Vec<Located<Node>> = Vec::new();
    let mut pending: Option<Pending> = None;
    let mut i: usize = 0;
    assert(views.take(0) =~= Seq::<(TokenView, nat, nat)>::empty());
    assert(spec_located_node_views(contents@) =~= Seq::<(NodeView, nat, nat)>::empty());
    assert(old_errors + Seq::<ErrorView>::empty() =~= old_errors);
    while i < tokens.len()
        invariant
            i <= tokens@.len(),
            views == spec_token_views(tokens@),
            lines == offsets@.lines,
            offsets@.byte_length < usize::MAX,
            spec_tokens_before(views, offsets@.byte_length),
            spec_nodes_complete(lines, views),
            spec_parse_nodes(lines, views.take(i as int)) matches Some(st) && st.contents
                == spec_located_node_views(contents@) && st.pending == spec_pending(pending) && spec_error_views(
                errors@,
            ) == old_errors + st.errors,
        decreases tokens@.len() - i,
    {
        assert(views.take(i + 1).drop_last() =~= views.take(i as int));
        assert(views.take(i + 1).last() == views[i as int]);
        assert(views[i as int] == (tokens@[i as int].0@, tokens@[i as int].1.start as nat, tokens@[i as int].1.end as nat));
        proof {
            if spec_parse_nodes(lines, views.take(i + 1)) is None {
                lemma_unhandled_stays(lines, views, i + 1);
            }
        }
        let (token, range) = &tokens[i];
        let next = parse_token(pending, token, range, offsets, &mut contents, errors);
        pending = next;
        i = i + 1;
    }
    assert(views.take(i as int) =~= views);
    Tree { contents }
}


/// Whether the offsets of the node being read are below the bound.
pub open spec fn spec_pending_below(pending: Option<PendingView>, bound: nat) -> bool {
    match pending {
        Some(p) => p.kind.1 < bound && p.kind.2 < bound
            && crate::assembly::parser::tree_parser::spec_attributes_below(p.attributes, bound),
        None => true,
    }
}

/// The nodes read from tokens that lie below a bound lie below it too, and hold no nested nodes.
pub proof fn lemma_parsed_nodes_handled(lines: Seq<LineView>, tokens: Seq<(TokenView, nat, nat)>, bound: nat)
    requires
        forall|k: int| #![trigger tokens[k]] 0 <= k < tokens.len() ==> tokens[k].1 < bound && tokens[k].2 < bound,
    ensures
        spec_parse_nodes(lines, tokens) matches Some(st) ==> crate::assembly::parser::tree_parser::spec_tree_handled(
            st.contents,
            bound,
        ) && spec_pending_below(st.pending, bound),
    decreases tokens.len(),
{
    if tokens.len() > 0 {
        let rest = tokens.drop_last();
        assert forall|k: int| #![trigger rest[k]] 0 <= k < rest.len() implies rest[k].1 < bound && rest[k].2
            < bound by {
            assert(rest[k] == tokens[k]);
        }
        lemma_parsed_nodes_handled(lines, rest, bound);
        let t = tokens.last();
        assert(t == tokens[tokens.len() - 1]);
        if let Some(st) = spec_parse_nodes(lines, rest) {
            if let Some(next) = spec_node_step(lines, st, t) {
                assert forall|i: int| #![trigger next.contents[i]] 0 <= i < next.contents.len() implies {
                    &&& crate::assembly::parser::tree_parser::spec_node_below(next.contents[i], bound)
                    &&& crate::assembly::parser::tree_parser::spec_nested_handled(
                        crate::assembly::parser::tree_parser::spec_contents_parts(next.contents[i].0.contents).1,
                        bound,
                    )
                } by {
                    if i < st.contents.len() {
                        assert(next.contents[i] == st.contents[i]);
                    }
                }
                match st.pending {
                    Some(p) => match t.0 {
                        TokenView::Word(w) => {
                            let attrs = p.attributes.push((AttributeView::Word(w), t.1, t.2));
                            assert forall|k: int| #![trigger attrs[k]] 0 <= k < attrs.len() implies attrs[k].1
                                < bound && attrs[k].2 < bound by {
                                if k < p.attributes.len() {
                                    assert(attrs[k] == p.attributes[k]);
                                }
                            }
                        },
                        _ => {},
                    },
                    None => {},
                }
            }
        }
    }
}

/// Whether the tokens are all handled and leave no node unfinished.
pub fn nodes_complete(tokens: &[(Token, Range<usize>)], offsets: &Offsets) -> (r: bool)
    ensures
        r == spec_nodes_complete(offsets@.lines, spec_token_views(tokens@)),
{
    let ghost views = spec_token_views(tokens@);
    let ghost lines = offsets@.lines;
    let mut open = false;
    let mut block = false;
    let mut i: usize = 0;
    assert(views.take(0) =~= Seq::<(TokenView, nat, nat)>::empty());
    while i < tokens.len()
        invariant
            i <= tokens@.len(),
            views == spec_token_views(tokens@),
            lines == offsets@.lines,
            spec_parse_nodes(lines, views.take(i as int)) matches Some(st) && (st.pending is Some) == open && (open
                ==> st.pending->Some_0.block == block),
        decreases tokens@.len() - i,
    {
        assert(views.take(i + 1).drop_last() =~= views.take(i as int));
        assert(views.take(i + 1).last() == views[i as int]);
        let (token, _) = &tokens[i];
        assert(views[i as int].0 == token@);
        match token {
            Token::Directive(_) => {
                if open {
                    proof {
                        lemma_unhandled_stays(lines, views, i + 1);
                    }
                    return false;
                }
                open = true;
                block = false;
            },
            Token::CloseBracket => {
                if open {
                    if block {
                        open = false;
                    } else {
                        proof {
                            lemma_unhandled_stays(lines, views, i + 1);
                        }
                        return false;
                    }
                }
            },
            Token::Semicolon => {
                if open && !block {
                    open = false;
                }
            },
            Token::OpenBracket => {
                if open {
                    block = true;
                }
            },
            _ => {},
        }
        i = i + 1;
    }
    assert(views.take(i as int) =~= views);
    !open
}
} // verus!

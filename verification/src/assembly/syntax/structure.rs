//! Types that model a low-level view of an IL4IL program: nodes made of a kind, attributes and nested nodes.
use vstd::prelude::*;
use crate::assembly::syntax::literal;
use crate::assembly::syntax::Located;

verus! {

/// The kind of a node.
#[derive(Debug, Eq, PartialEq)]
pub enum NodeKind {
    Word(String),
    Directive(String),
}

/// The kind of a node, in specifications.
pub enum NodeKindView {
    Word(Seq<char>),
    Directive(Seq<char>),
}

impl View for NodeKind {
    type V = NodeKindView;

    open spec fn view(&self) -> NodeKindView {
        match self {
            NodeKind::Word(w) => NodeKindView::Word(w@),
            NodeKind::Directive(d) => NodeKindView::Directive(d@),
        }
    }
}

/// An attribute of a node.
#[derive(Debug, Eq, PartialEq)]
pub enum Attribute {
    Word(String),
    String(literal::String),
}

/// An attribute of a node, in specifications.
pub enum AttributeView {
    Word(Seq<char>),
    String(Seq<char>),
}

impl View for Attribute {
    type V = AttributeView;

    open spec fn view(&self) -> AttributeView {
        match self {
            Attribute::Word(w) => AttributeView::Word(w@),
            Attribute::String(s) => AttributeView::String(s@),
        }
    }
}

/// What a node holds after its kind.
#[derive(Debug, Eq, PartialEq)]
pub enum NodeContents {
    /// Attributes that end with a semicolon.
    Line(Vec<Located<Attribute>>),
    /// Attributes followed by nested nodes between curly brackets.
    Block { attributes: Vec<Located<Attribute>>, nodes: Vec<Located<Node>> },
}

/// A node.
#[derive(Debug, Eq, PartialEq)]
pub struct Node {
    pub kind: Located<NodeKind>,
    pub contents: NodeContents,
}

/// What a node holds after its kind, in specifications.
pub enum NodeContentsView {
    Line(Seq<(AttributeView, nat, nat)>),
    Block(Seq<(AttributeView, nat, nat)>, Seq<(NodeView, nat, nat)>),
}

/// A node, in specifications.
pub struct NodeView {
    pub kind: (NodeKindView, nat, nat),
    pub contents: NodeContentsView,
}

/// The views of located attributes.
pub open spec fn spec_attribute_views(attributes: Seq<Located<Attribute>>) -> Seq<(AttributeView, nat, nat)> {
    attributes.map_values(|a: Located<Attribute>| a@)
}

/// The view of a node.
pub open spec fn spec_node_view(node: Node) -> NodeView
    decreases node,
{
    NodeView { kind: node.kind@, contents: spec_contents_view(node.contents) }
}

/// The view of the contents of a node.
pub open spec fn spec_contents_view(contents: NodeContents) -> NodeContentsView
    decreases contents,
{
    match contents {
        NodeContents::Line(attributes) => NodeContentsView::Line(spec_attribute_views(attributes@)),
        NodeContents::Block { attributes, nodes } => NodeContentsView::Block(
            spec_attribute_views(attributes@),
            spec_located_node_views(nodes@),
        ),
    }
}

impl View for NodeContents {
    type V = NodeContentsView;

    open spec fn view(&self) -> NodeContentsView {
        spec_contents_view(*self)
    }
}

/// The views of located nodes.
pub open spec fn spec_located_node_views(nodes: Seq<Located<Node>>) -> Seq<(NodeView, nat, nat)>
    decreases nodes,
{
    if nodes.len() == 0 {
        Seq::empty()
    } else {
        let last = nodes[nodes.len() - 1];
        spec_located_node_views(nodes.subrange(0, nodes.len() - 1)).push(
            (spec_node_view(last.node), last.offsets.start as nat, last.offsets.end as nat),
        )
    }
}

/// The views of located nodes are, one for one, the views of the nodes with their byte offsets.
pub proof fn lemma_located_node_views(nodes: Seq<Located<Node>>)
    ensures
        spec_located_node_views(nodes).len() == nodes.len(),
        forall|i: int| #![trigger spec_located_node_views(nodes)[i]] 0 <= i < nodes.len() ==> spec_located_node_views(nodes)[i] == (
            spec_node_view(nodes[i].node),
            nodes[i].offsets.start as nat,
            nodes[i].offsets.end as nat,
        ),
    decreases nodes.len(),
{
    if nodes.len() > 0 {
        let rest = nodes.subrange(0, nodes.len() - 1);
        lemma_located_node_views(rest);
        assert forall|i: int| 0 <= i < rest.len() implies rest[i] == nodes[i] by {}
    }
}

impl View for Node {
    type V = NodeView;

    open spec fn view(&self) -> NodeView {
        spec_node_view(*self)
    }
}

/// The nodes of a source text.
#[derive(Debug, Eq, PartialEq)]
pub struct Tree {
    pub contents: Vec<Located<Node>>,
}

} // verus!

//! Turns nodes into the abstract syntax tree, which is the final output of parsing.
use vstd::prelude::*;
use std::ops::Range;
use crate::assembly::error::spec_error_at;
use crate::assembly::error::spec_error_views;
use crate::assembly::error::Error;
use crate::assembly::error::ErrorView;
use crate::assembly::lexer::LineView;
use crate::assembly::lexer::Offsets;
use crate::assembly::syntax::literal::spec_quoted;
use crate::assembly::syntax::structure::spec_attribute_views;
use crate::assembly::syntax::structure::spec_located_node_views;
use crate::assembly::syntax::structure::Attribute;
use crate::assembly::syntax::structure::AttributeView;
use crate::assembly::syntax::structure::Node;
use crate::assembly::syntax::structure::NodeContents;
use crate::assembly::syntax::structure::NodeContentsView;
use crate::assembly::syntax::structure::NodeKind;
use crate::assembly::syntax::structure::NodeKindView;
use crate::assembly::syntax::structure::NodeView;
use crate::assembly::syntax::structure::Tree;
use crate::assembly::syntax::tree::MetadataDirective;
use crate::assembly::syntax::tree::MetadataDirectiveView;
use crate::assembly::syntax::tree::Root;
use crate::assembly::syntax::tree::SectionDefinition;
use crate::assembly::syntax::tree::SectionDefinitionView;
use crate::assembly::syntax::tree::TopLevelDirective;
use crate::assembly::syntax::tree::TopLevelDirectiveView;
use crate::assembly::syntax::Located;
use crate::binary::parser::spec_views;
use crate::identifier::spec_is_identifier;
use crate::identifier::Identifier;
use crate::module::ModuleName;

verus! {

/// The attributes and the nested nodes of a node's contents.
pub open spec fn spec_contents_parts(contents: NodeContentsView) -> (
    Seq<(AttributeView, nat, nat)>,
    Seq<(NodeView, nat, nat)>,
) {
    match contents {
        NodeContentsView::Line(attributes) => (attributes, Seq::empty()),
        NodeContentsView::Block(attributes, nodes) => (attributes, nodes),
    }
}

/// The text of an attribute: a word as it is, a string quoted.
pub open spec fn spec_attribute_text(attribute: AttributeView) -> Seq<char> {
    match attribute {
        AttributeView::Word(w) => w,
        AttributeView::String(s) => spec_quoted(s),
    }
}

/// The text of the kind of a node: a word as it is, a directive after a dot.
pub open spec fn spec_node_kind_text(kind: NodeKindView) -> Seq<char> {
    match kind {
        NodeKindView::Word(w) => w,
        NodeKindView::Directive(d) => seq!['.'] + d,
    }
}

/// An error for each attribute that comes after all that was expected.
pub open spec fn spec_unexpected_attributes(lines: Seq<LineView>, attributes: Seq<(AttributeView, nat, nat)>) -> Seq<
    ErrorView,
>
    decreases attributes.len(),
{
    if attributes.len() == 0 {
        Seq::empty()
    } else {
        let a = attributes.last();
        spec_unexpected_attributes(lines, attributes.drop_last()).push(
            spec_error_at(lines, a.1, a.2, "unexpected \""@ + spec_attribute_text(a.0) + "\""@),
        )
    }
}

/// An error for each nested node where none is expected, at the node's kind.
pub open spec fn spec_unexpected_nodes(lines: Seq<LineView>, nodes: Seq<(NodeView, nat, nat)>) -> Seq<ErrorView>
    decreases nodes.len(),
{
    if nodes.len() == 0 {
        Seq::empty()
    } else {
        let n = nodes.last().0.kind;
        spec_unexpected_nodes(lines, nodes.drop_last()).push(
            spec_error_at(lines, n.1, n.2, "unexpected \""@ + spec_node_kind_text(n.0) + "\""@),
        )
    }
}

/// Reads a node inside a metadata section: the entry it gives, if any, and the errors it finds.
///
/// A `.name` directive takes a literal string as its first attribute and nothing after it.
pub open spec fn spec_metadata_entry(lines: Seq<LineView>, node: (NodeView, nat, nat)) -> (
    Option<(MetadataDirectiveView, nat, nat)>,
    Seq<ErrorView>,
) {
    let kind = node.0.kind;
    match kind.0 {
        NodeKindView::Directive(d) => if d == "name"@ {
            let attributes = spec_contents_parts(node.0.contents).0;
            let nested = spec_unexpected_nodes(lines, spec_contents_parts(node.0.contents).1);
            if attributes.len() == 0 {
                (
                    None,
                    seq![spec_error_at(lines, kind.1, kind.2, "expected literal string, unexpected end"@)] + nested,
                )
            } else {
                let first = attributes[0];
                match first.0 {
                    AttributeView::String(s) => (
                        Some((MetadataDirectiveView::Name((s, first.1, first.2)), node.1, first.2)),
                        spec_unexpected_attributes(lines, attributes.skip(1)) + nested,
                    ),
                    AttributeView::Word(w) => (
                        None,
                        seq![
                            spec_error_at(
                                lines,
                                first.1,
                                first.2,
                                "expected literal string, but got \""@ + w + "\""@,
                            ),
                        ] + nested,
                    ),
                }
            }
        } else {
            (None, seq![spec_error_at(lines, kind.1, kind.2, "unknown metadata directive \"."@ + d + "\""@)])
        },
        NodeKindView::Word(w) => (
            None,
            seq![spec_error_at(lines, kind.1, kind.2, "expected metadata directive, but got \""@ + w + "\""@)],
        ),
    }
}

/// Reads the nodes inside a metadata section: the entries they give, and the errors they find.
pub open spec fn spec_metadata(lines: Seq<LineView>, nodes: Seq<(NodeView, nat, nat)>) -> (
    Seq<(MetadataDirectiveView, nat, nat)>,
    Seq<ErrorView>,
)
    decreases nodes.len(),
{
    if nodes.len() == 0 {
        (Seq::empty(), Seq::empty())
    } else {
        let (entries, errors) = spec_metadata(lines, nodes.drop_last());
        let (entry, more) = spec_metadata_entry(lines, nodes.last());
        match entry {
            Some(e) => (entries.push(e), errors + more),
            None => (entries, errors + more),
        }
    }
}

/// Whether the literal string of a `.name` directive, where it has one, is a valid identifier.
pub open spec fn spec_name_valid(node: NodeView) -> bool {
    let attributes = spec_contents_parts(node.contents).0;
    (node.kind.0 == NodeKindView::Directive("name"@) && attributes.len() > 0 && attributes[0].0 is String) ==> (
    spec_is_identifier(attributes[0].0->String_0))
}

/// Reads a section: the section, or the error that stops it, and the errors found before that.
///
/// The first attribute is the kind of the section, and nothing may follow it; `metadata` is the one kind known.
pub open spec fn spec_section(
    lines: Seq<LineView>,
    location: (nat, nat),
    attributes: Seq<(AttributeView, nat, nat)>,
    nodes: Seq<(NodeView, nat, nat)>,
) -> (Result<SectionDefinitionView, ErrorView>, Seq<ErrorView>) {
    if attributes.len() == 0 {
        (Err(spec_error_at(lines, location.0, location.1, "expected section kind, unexpected end"@)), Seq::empty())
    } else {
        let first = attributes[0];
        match first.0 {
            AttributeView::Word(k) => {
                let extra = spec_unexpected_attributes(lines, attributes.skip(1));
                if k == "metadata"@ {
                    let (entries, errors) = spec_metadata(lines, nodes);
                    (Ok(SectionDefinitionView::Metadata(entries)), extra + errors)
                } else {
                    (
                        Err(spec_error_at(lines, first.1, first.2, "\""@ + k + "\" is not a known section kind"@)),
                        extra,
                    )
                }
            },
            AttributeView::String(s) => (
                Err(
                    spec_error_at(
                        lines,
                        first.1,
                        first.2,
                        "expected section kind, but got \""@ + spec_quoted(s) + "\""@,
                    ),
                ),
                Seq::empty(),
            ),
        }
    }
}

/// Reads a node at the top level: the directive it gives, if any, and the errors it finds.
pub open spec fn spec_top_level(lines: Seq<LineView>, node: (NodeView, nat, nat)) -> (
    Option<(TopLevelDirectiveView, nat, nat)>,
    Seq<ErrorView>,
) {
    let kind = node.0.kind;
    match kind.0 {
        NodeKindView::Directive(d) => if d == "section"@ {
            let (attributes, nodes) = spec_contents_parts(node.0.contents);
            let (r, errors) = spec_section(lines, (kind.1, kind.2), attributes, nodes);
            match r {
                Ok(s) => (Some((TopLevelDirectiveView::Section(s), node.1, node.2)), errors),
                Err(e) => (None, errors.push(e)),
            }
        } else {
            (
                None,
                seq![
                    spec_error_at(
                        lines,
                        kind.1,
                        kind.2,
                        "unknown directive \"."@ + d + "\", expected \".section\""@,
                    ),
                ],
            )
        },
        NodeKindView::Word(w) => (
            None,
            seq![spec_error_at(lines, node.1, node.2, "unexpected word "@ + w + ", expected directive"@)],
        ),
    }
}

/// Reads the nodes at the top level: the directives they give, and the errors they find.
pub open spec fn spec_parse_tree(lines: Seq<LineView>, nodes: Seq<(NodeView, nat, nat)>) -> (
    Seq<(TopLevelDirectiveView, nat, nat)>,
    Seq<ErrorView>,
)
    decreases nodes.len(),
{
    if nodes.len() == 0 {
        (Seq::empty(), Seq::empty())
    } else {
        let (directives, errors) = spec_parse_tree(lines, nodes.drop_last());
        let (directive, more) = spec_top_level(lines, nodes.last());
        match directive {
            Some(d) => (directives.push(d), errors + more),
            None => (directives, errors + more),
        }
    }
}

/// Whether every offset of the attributes is below the bound.
pub open spec fn spec_attributes_below(attributes: Seq<(AttributeView, nat, nat)>, bound: nat) -> bool {
    forall|k: int| #![trigger attributes[k]] 0 <= k < attributes.len() ==> attributes[k].1 < bound && attributes[k].2 < bound
}

/// Whether the offsets of a node, of its kind, and of its attributes are below the bound.
pub open spec fn spec_node_below(node: (NodeView, nat, nat), bound: nat) -> bool {
    &&& node.1 < bound
    &&& node.2 < bound
    &&& node.0.kind.1 < bound
    &&& node.0.kind.2 < bound
    &&& spec_attributes_below(spec_contents_parts(node.0.contents).0, bound)
}

/// Whether the offsets of the kinds of the nodes are below the bound.
pub open spec fn spec_kinds_below(nodes: Seq<(NodeView, nat, nat)>, bound: nat) -> bool {
    forall|k: int| #![trigger nodes[k]] 0 <= k < nodes.len() ==> nodes[k].0.kind.1 < bound && nodes[k].0.kind.2 < bound
}

/// Whether the offsets that reading a nested node reports are below the bound, and a `.name` directive names a valid
/// identifier.
pub open spec fn spec_nested_handled(nodes: Seq<(NodeView, nat, nat)>, bound: nat) -> bool {
    forall|j: int| #![trigger nodes[j]] 0 <= j < nodes.len() ==> {
        &&& spec_node_below(nodes[j], bound)
        &&& spec_name_valid(nodes[j].0)
        &&& spec_kinds_below(spec_contents_parts(nodes[j].0.contents).1, bound)
    }
}

/// Whether the offsets that reading the nodes reports are below the bound, and every `.name` directive nested in them
/// names a valid identifier.
pub open spec fn spec_tree_handled(nodes: Seq<(NodeView, nat, nat)>, bound: nat) -> bool {
    forall|i: int| #![trigger nodes[i]] 0 <= i < nodes.len() ==> {
        &&& spec_node_below(nodes[i], bound)
        &&& spec_nested_handled(spec_contents_parts(nodes[i].0.contents).1, bound)
    }
}


/// The text of an attribute.
fn attribute_text(attribute: &Attribute) -> (r: String)
    ensures
        r@ == spec_attribute_text(attribute@),
{
    match attribute {
        Attribute::Word(w) => w.clone(),
        Attribute::String(s) => s.to_text(),
    }
}

/// The text of the kind of a node.
fn node_kind_text(kind: &NodeKind) -> (r: String)
    ensures
        r@ == spec_node_kind_text(kind@),
{
    match kind {
        NodeKind::Word(w) => w.clone(),
        NodeKind::Directive(d) => {
            let mut r = String::new();
            crate::text::push_char(&mut r, '.');
            crate::text::push_str(&mut r, d.as_str());
            assert(r@ =~= seq!['.'] + d@);
            r
        },
    }
}

/// The attributes of a node's contents.
fn attributes_of(contents: &NodeContents) -> (r: &Vec<Located<Attribute>>)
    ensures
        spec_attribute_views(r@) == spec_contents_parts(contents@).0,
{
    match contents {
        NodeContents::Line(attributes) => attributes,
        NodeContents::Block { attributes, .. } => attributes,
    }
}

/// Adds an error for each attribute from position `from` on.
fn report_unexpected_attributes(
    attributes: &Vec<Located<Attribute>>,
    from: usize,
    offsets: &Offsets,
    errors: &mut Vec<Error>,
)
    requires
        from <= attributes@.len(),
        spec_attributes_below(spec_attribute_views(attributes@), usize::MAX as nat),
    ensures
        spec_error_views(final(errors)@) == spec_error_views(old(errors)@) + spec_unexpected_attributes(
            offsets@.lines,
            spec_attribute_views(attributes@).skip(from as int),
        ),
{
    let ghost views = spec_attribute_views(attributes@);
    let ghost old_errors = spec_error_views(errors@);
    let mut i: usize = from;
    assert(views.subrange(from as int, from as int) =~= Seq::<(AttributeView, nat, nat)>::empty());
    assert(old_errors + Seq::<ErrorView>::empty() =~= old_errors);
    while i < attributes.len()
        invariant
            from <= i <= attributes@.len(),
            views == spec_attribute_views(attributes@),
            spec_attributes_below(views, usize::MAX as nat),
            spec_error_views(errors@) == old_errors + spec_unexpected_attributes(
                offsets@.lines,
                views.subrange(from as int, i as int),
            ),
        decreases attributes@.len() - i,
    {
        let a = &attributes[i];
        assert(views[i as int] == a@);
        let text = attribute_text(&a.node);
        let message = crate::text::concat3("unexpected \"", text.as_str(), "\"");
        let ghost before = errors@;
        errors.push(Error::at(offsets, a.offsets.start..a.offsets.end, message));
        assert(views.subrange(from as int, i + 1).drop_last() =~= views.subrange(from as int, i as int));
        assert(spec_error_views(errors@) =~= spec_error_views(before).push(errors@.last()@));
        i = i + 1;
    }
    assert(views.subrange(from as int, i as int) =~= views.skip(from as int));
}

/// Adds an error for each nested node of the contents, at the node's kind.
fn report_unexpected_nodes(contents: &NodeContents, offsets: &Offsets, errors: &mut Vec<Error>)
    requires
        spec_kinds_below(spec_contents_parts(contents@).1, usize::MAX as nat),
    ensures
        spec_error_views(final(errors)@) == spec_error_views(old(errors)@) + spec_unexpected_nodes(
            offsets@.lines,
            spec_contents_parts(contents@).1,
        ),
{
    match contents {
        NodeContents::Line(_) => {
            assert(spec_error_views(errors@) + Seq::<ErrorView>::empty() =~= spec_error_views(errors@));
        },
        NodeContents::Block { nodes, .. } => {
            let ghost views = spec_located_node_views(nodes@);
            let ghost old_errors = spec_error_views(errors@);
            proof {
                crate::assembly::syntax::structure::lemma_located_node_views(nodes@);
            }
            let mut i: usize = 0;
            assert(spec_contents_parts(contents@).1 == views);
            assert(views.subrange(0, 0) =~= Seq::<(NodeView, nat, nat)>::empty());
            assert(old_errors + Seq::<ErrorView>::empty() =~= old_errors);
            while i < nodes.len()
                invariant
                    i <= nodes@.len(),
                    views == spec_located_node_views(nodes@),
                    views.len() == nodes@.len(),
                    spec_kinds_below(views, usize::MAX as nat),
                    forall|j: int| #![trigger views[j]] 0 <= j < nodes@.len() ==> views[j] == (
                        nodes@[j].node@,
                        nodes@[j].offsets.start as nat,
                        nodes@[j].offsets.end as nat,
                    ),
                    spec_error_views(errors@) == old_errors + spec_unexpected_nodes(
                        offsets@.lines,
                        views.subrange(0, i as int),
                    ),
                decreases nodes@.len() - i,
            {
                let n = &nodes[i];
                assert(views[i as int].0.kind == n.node.kind@);
                let text = node_kind_text(&n.node.kind.node);
                let message = crate::text::concat3("unexpected \"", text.as_str(), "\"");
                let ghost before = errors@;
                errors.push(Error::at(offsets, n.node.kind.offsets.start..n.node.kind.offsets.end, message));
                assert(views.subrange(0, i + 1).drop_last() =~= views.subrange(0, i as int));
                assert(spec_error_views(errors@) =~= spec_error_views(before).push(errors@.last()@));
                i = i + 1;
            }
            assert(views.subrange(0, i as int) =~= views);
        },
    }
}

/// The view of the entry that a node inside a metadata section gives, if any.
pub open spec fn spec_entry_view(entry: Option<Located<MetadataDirective>>) -> Option<(MetadataDirectiveView, nat, nat)> {
    match entry {
        Some(e) => Some(e@),
        None => None,
    }
}

/// Reads a node inside a metadata section, adding the errors that it finds.
#[verifier::spinoff_prover]
fn parse_metadata_entry(node: &Located<Node>, offsets: &Offsets, errors: &mut Vec<Error>) -> (r: Option<
    Located<MetadataDirective>,
>)
    requires
        spec_nested_handled(seq![node@], usize::MAX as nat),
    ensures
        spec_entry_view(r) == spec_metadata_entry(offsets@.lines, node@).0,
        spec_error_views(final(errors)@) == spec_error_views(old(errors)@) + spec_metadata_entry(
            offsets@.lines,
            node@,
        ).1,
{
    let ghost old_errors = errors@;
    let ghost lines = offsets@.lines;
    assert(seq![node@][0] == node@);
    let kind = &node.node.kind;
    match &kind.node {
        NodeKind::Directive(d) => {
            if crate::text::str_eq(d.as_str(), "name") {
                let attributes = attributes_of(&node.node.contents);
                if attributes.len() == 0 {
                    let message = std::string::String::from_str("expected literal string, unexpected end");
                    errors.push(Error::at(offsets, kind.offsets.start..kind.offsets.end, message));
                    let ghost pushed = errors@;
                    assert(spec_error_views(pushed) =~= spec_error_views(old_errors).push(pushed.last()@));
                    report_unexpected_nodes(&node.node.contents, offsets, errors);
                    assert(spec_error_views(errors@) =~= spec_error_views(old_errors) + spec_metadata_entry(
                        lines,
                        node@,
                    ).1);
                    None
                } else {
                    let first = &attributes[0];
                    assert(spec_attribute_views(attributes@)[0] == first@);
                    match &first.node {
                        Attribute::String(s) => {
                            match Identifier::from_boxed_str(s.contents().as_str()) {
                                Ok(id) => {
                                    let name = Located::new(
                                        ModuleName::from_name(id),
                                        first.offsets.start..first.offsets.end,
                                    );
                                    let entry = Located::new(
                                        MetadataDirective::Name(name),
                                        node.offsets.start..first.offsets.end,
                                    );
                                    report_unexpected_attributes(attributes, 1, offsets, errors);
                                    report_unexpected_nodes(&node.node.contents, offsets, errors);
                                    assert(spec_error_views(errors@) =~= spec_error_views(old_errors)
                                        + spec_metadata_entry(lines, node@).1);
                                    Some(entry)
                                },
                                Err(_) => {
                                    proof {
                                        assert(false);
                                    }
                                    None
                                },
                            }
                        },
                        Attribute::Word(w) => {
                            let message = crate::text::concat3(
                                "expected literal string, but got \"",
                                w.as_str(),
                                "\"",
                            );
                            errors.push(Error::at(offsets, first.offsets.start..first.offsets.end, message));
                            let ghost pushed = errors@;
                            assert(spec_error_views(pushed) =~= spec_error_views(old_errors).push(pushed.last()@));
                            report_unexpected_nodes(&node.node.contents, offsets, errors);
                            assert(spec_error_views(errors@) =~= spec_error_views(old_errors) + spec_metadata_entry(
                                lines,
                                node@,
                            ).1);
                            None
                        },
                    }
                }
            } else {
                let message = crate::text::concat3("unknown metadata directive \".", d.as_str(), "\"");
                errors.push(Error::at(offsets, kind.offsets.start..kind.offsets.end, message));
                assert(spec_error_views(errors@) =~= spec_error_views(old_errors) + spec_metadata_entry(
                    lines,
                    node@,
                ).1);
                None
            }
        },
        NodeKind::Word(w) => {
            let message = crate::text::concat3("expected metadata directive, but got \"", w.as_str(), "\"");
            errors.push(Error::at(offsets, kind.offsets.start..kind.offsets.end, message));
            assert(spec_error_views(errors@) =~= spec_error_views(old_errors) + spec_metadata_entry(lines, node@).1);
            None
        },
    }
}

/// Reads the nodes inside a metadata section, adding the errors that they find.
fn parse_metadata(nodes: &Vec<Located<Node>>, offsets: &Offsets, errors: &mut Vec<Error>) -> (r: Vec<
    Located<MetadataDirective>,
>)
    requires
        spec_nested_handled(spec_located_node_views(nodes@), usize::MAX as nat),
    ensures
        spec_views(r@) == spec_metadata(offsets@.lines, spec_located_node_views(nodes@)).0,
        spec_error_views(final(errors)@) == spec_error_views(old(errors)@) + spec_metadata(
            offsets@.lines,
            spec_located_node_views(nodes@),
        ).1,
{
    let ghost views = spec_located_node_views(nodes@);
    let ghost lines = offsets@.lines;
    let ghost old_errors = spec_error_views(errors@);
    proof {
        crate::assembly::syntax::structure::lemma_located_node_views(nodes@);
    }
    let mut entries: Vec<Located<MetadataDirective>> = Vec::new();
    let mut i: usize = 0;
    assert(views.subrange(0, 0) =~= Seq::<(NodeView, nat, nat)>::empty());
    assert(old_errors + Seq::<ErrorView>::empty() =~= old_errors);
    assert(spec_views(entries@) =~= Seq::<(MetadataDirectiveView, nat, nat)>::empty());
    while i < nodes.len()
        invariant
            i <= nodes@.len(),
            views == spec_located_node_views(nodes@),
            views.len() == nodes@.len(),
            spec_nested_handled(views, usize::MAX as nat),
            forall|j: int| #![trigger views[j]] 0 <= j < nodes@.len() ==> views[j] == nodes@[j]@,
            spec_views(entries@) == spec_metadata(lines, views.subrange(0, i as int)).0,
            spec_error_views(errors@) == old_errors + spec_metadata(lines, views.subrange(0, i as int)).1,
            lines == offsets@.lines,
        decreases nodes@.len() - i,
    {
        let node = &nodes[i];
        assert(views[i as int] == node@);
        assert(spec_nested_handled(seq![node@], usize::MAX as nat)) by {
            assert(seq![node@][0] == views[i as int]);
        }
        let ghost before_errors = spec_error_views(errors@);
        let ghost before_entries = entries@;
        let entry = parse_metadata_entry(node, offsets, errors);
        assert(views.subrange(0, i + 1).drop_last() =~= views.subrange(0, i as int));
        assert(views.subrange(0, i + 1).last() == node@);
        match entry {
            Some(e) => {
                entries.push(e);
                assert(spec_views(entries@) =~= spec_views(before_entries).push(entries@.last()@));
            },
            None => {},
        }
        assert(spec_error_views(errors@) =~= old_errors + spec_metadata(lines, views.subrange(0, i + 1)).1);
        i = i + 1;
    }
    assert(views.subrange(0, i as int) =~= views);
    entries
}

/// Reads a section from the contents of its node, adding the errors found before the one that stops it, if any.
#[verifier::spinoff_prover]
fn parse_section(location: &Range<usize>, contents: &NodeContents, offsets: &Offsets, errors: &mut Vec<Error>) -> (r:
    Result<SectionDefinition, Error>)
    requires
        location.start < usize::MAX,
        location.end < usize::MAX,
        spec_attributes_below(spec_contents_parts(contents@).0, usize::MAX as nat),
        spec_nested_handled(spec_contents_parts(contents@).1, usize::MAX as nat),
    ensures
        ({
            let (expected, more) = spec_section(
                offsets@.lines,
                (location.start as nat, location.end as nat),
                spec_contents_parts(contents@).0,
                spec_contents_parts(contents@).1,
            );
            &&& spec_error_views(final(errors)@) == spec_error_views(old(errors)@) + more
            &&& match expected {
                Ok(s) => r matches Ok(d) && d@ == s,
                Err(e) => r matches Err(x) && x@ == e,
            }
        }),
{
    let ghost old_errors = spec_error_views(errors@);
    let attributes = attributes_of(contents);
    if attributes.len() == 0 {
        let message = std::string::String::from_str("expected section kind, unexpected end");
        assert(old_errors + Seq::<ErrorView>::empty() =~= old_errors);
        return Err(Error::at(offsets, location.start..location.end, message));
    }
    let first = &attributes[0];
    assert(spec_attribute_views(attributes@)[0] == first@);
    match &first.node {
        Attribute::Word(k) => {
            report_unexpected_attributes(attributes, 1, offsets, errors);
            if crate::text::str_eq(k.as_str(), "metadata") {
                let nodes_empty: Vec<Located<Node>> = Vec::new();
                let entries = match contents {
                    NodeContents::Line(_) => {
                        assert(spec_located_node_views(nodes_empty@) =~= Seq::<(NodeView, nat, nat)>::empty());
                        parse_metadata(&nodes_empty, offsets, errors)
                    },
                    NodeContents::Block { nodes, .. } => parse_metadata(nodes, offsets, errors),
                };
                assert(spec_error_views(errors@) =~= old_errors + spec_section(
                    offsets@.lines,
                    (location.start as nat, location.end as nat),
                    spec_contents_parts(contents@).0,
                    spec_contents_parts(contents@).1,
                ).1);
                Ok(SectionDefinition::Metadata(entries))
            } else {
                let message = crate::text::concat3("\"", k.as_str(), "\" is not a known section kind");
                Err(Error::at(offsets, first.offsets.start..first.offsets.end, message))
            }
        },
        Attribute::String(s) => {
            let text = s.to_text();
            let message = crate::text::concat3("expected section kind, but got \"", text.as_str(), "\"");
            assert(old_errors + Seq::<ErrorView>::empty() =~= old_errors);
            Err(Error::at(offsets, first.offsets.start..first.offsets.end, message))
        },
    }
}

/// The view of the directive that a top-level node gives, if any.
pub open spec fn spec_directive_view(directive: Option<Located<TopLevelDirective>>) -> Option<
    (TopLevelDirectiveView, nat, nat),
> {
    match directive {
        Some(d) => Some(d@),
        None => None,
    }
}

/// Reads a node at the top level, adding the errors that it finds.
#[verifier::spinoff_prover]
fn parse_top_level(node: &Located<Node>, offsets: &Offsets, errors: &mut Vec<Error>) -> (r: Option<
    Located<TopLevelDirective>,
>)
    requires
        spec_tree_handled(seq![node@], usize::MAX as nat),
    ensures
        spec_directive_view(r) == spec_top_level(offsets@.lines, node@).0,
        spec_error_views(final(errors)@) == spec_error_views(old(errors)@) + spec_top_level(offsets@.lines, node@).1,
{
    let ghost old_errors = spec_error_views(errors@);
    let ghost lines = offsets@.lines;
    assert(seq![node@][0] == node@);
    let kind = &node.node.kind;
    match &kind.node {
        NodeKind::Directive(d) => {
            if crate::text::str_eq(d.as_str(), "section") {
                let ghost before = spec_error_views(errors@);
                let r = parse_section(&kind.offsets, &node.node.contents, offsets, errors);
                match r {
                    Ok(section) => {
                        let directive = Located::new(
                            TopLevelDirective::Section(section),
                            node.offsets.start..node.offsets.end,
                        );
                        Some(directive)
                    },
                    Err(e) => {
                        let ghost middle = errors@;
                        errors.push(e);
                        assert(spec_error_views(errors@) =~= spec_error_views(middle).push(errors@.last()@));
                        assert(spec_error_views(errors@) =~= old_errors + spec_top_level(lines, node@).1);
                        None
                    },
                }
            } else {
                let message = crate::text::concat3(
                    "unknown directive \".",
                    d.as_str(),
                    "\", expected \".section\"",
                );
                errors.push(Error::at(offsets, kind.offsets.start..kind.offsets.end, message));
                assert(spec_error_views(errors@) =~= old_errors + spec_top_level(lines, node@).1);
                None
            }
        },
        NodeKind::Word(w) => {
            let message = crate::text::concat3("unexpected word ", w.as_str(), ", expected directive");
            errors.push(Error::at(offsets, node.offsets.start..node.offsets.end, message));
            assert(spec_error_views(errors@) =~= old_errors + spec_top_level(lines, node@).1);
            None
        },
    }
}

/// Turns the nodes into the abstract syntax tree, adding the errors that it finds to `errors`.
///
/// Each node at the top level must be a `.section` directive whose first attribute is the kind of the section;
/// `metadata` is the one kind known, and holds `.name` directives, each with a literal string.
#[verifier::spinoff_prover]
pub fn parse(tree: &Tree, offsets: &Offsets, errors: &mut Vec<Error>) -> (r: Root)
    requires
        spec_tree_handled(spec_located_node_views(tree.contents@), usize::MAX as nat),
    ensures
        r@ == spec_parse_tree(offsets@.lines, spec_located_node_views(tree.contents@)).0,
        spec_error_views(final(errors)@) == spec_error_views(old(errors)@) + spec_parse_tree(
            offsets@.lines,
            spec_located_node_views(tree.contents@),
        ).1,
{
    let nodes = &tree.contents;
    let ghost views = spec_located_node_views(nodes@);
    let ghost lines = offsets@.lines;
    let ghost old_errors = spec_error_views(errors@);
    proof {
        crate::assembly::syntax::structure::lemma_located_node_views(nodes@);
    }
    let mut directives: Vec<Located<TopLevelDirective>> = Vec::new();
    let mut i: usize = 0;
    assert(views.subrange(0, 0) =~= Seq::<(NodeView, nat, nat)>::empty());
    assert(old_errors + Seq::<ErrorView>::empty() =~= old_errors);
    assert(spec_views(directives@) =~= Seq::<(TopLevelDirectiveView, nat, nat)>::empty());
    while i < nodes.len()
        invariant
            i <= nodes@.len(),
            views == spec_located_node_views(nodes@),
            views.len() == nodes@.len(),
            spec_tree_handled(views, usize::MAX as nat),
            forall|j: int| #![trigger views[j]] 0 <= j < nodes@.len() ==> views[j] == nodes@[j]@,
            spec_views(directives@) == spec_parse_tree(lines, views.subrange(0, i as int)).0,
            spec_error_views(errors@) == old_errors + spec_parse_tree(lines, views.subrange(0, i as int)).1,
            lines == offsets@.lines,
        decreases nodes@.len() - i,
    {
        let node = &nodes[i];
        assert(views[i as int] == node@);
        assert(spec_tree_handled(seq![node@], usize::MAX as nat)) by {
            assert(seq![node@][0] == views[i as int]);
        }
        let ghost before_directives = directives@;
        let directive = parse_top_level(node, offsets, errors);
        assert(views.subrange(0, i + 1).drop_last() =~= views.subrange(0, i as int));
        assert(views.subrange(0, i + 1).last() == node@);
        match directive {
            Some(d) => {
                directives.push(d);
                assert(spec_views(directives@) =~= spec_views(before_directives).push(directives@.last()@));
            },
            None => {},
        }
        assert(spec_error_views(errors@) =~= old_errors + spec_parse_tree(lines, views.subrange(0, i + 1)).1);
        i = i + 1;
    }
    assert(views.subrange(0, i as int) =~= views);
    Root { directives }
}
} // verus!

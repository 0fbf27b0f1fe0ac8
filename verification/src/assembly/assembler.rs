//! Turns the abstract syntax tree into an in-memory representation of an IL4IL module.
use vstd::prelude::*;
use crate::assembly::error::spec_error_views;
use crate::assembly::error::Error;
use crate::assembly::parser;
use crate::assembly::syntax::tree::MetadataDirective;
use crate::assembly::syntax::tree::MetadataDirectiveView;
use crate::assembly::syntax::tree::SectionDefinition;
use crate::assembly::syntax::tree::SectionDefinitionView;
use crate::assembly::syntax::tree::TopLevelDirective;
use crate::assembly::syntax::tree::TopLevelDirectiveView;
use crate::assembly::syntax::Located;
use crate::binary::parser::spec_views;
use crate::module::section::Metadata;
use crate::module::section::MetadataView;
use crate::module::section::Section;
use crate::module::section::SectionView;
use crate::module::Module;
use crate::module::ModuleView;

verus! {

/// The metadata entry that a directive gives.
pub open spec fn spec_metadata_of(entry: (MetadataDirectiveView, nat, nat)) -> MetadataView {
    match entry.0 {
        MetadataDirectiveView::Name(name) => MetadataView::Name(name.0),
    }
}

/// The metadata entries that directives give.
pub open spec fn spec_metadata_entries(entries: Seq<(MetadataDirectiveView, nat, nat)>) -> Seq<MetadataView>
    decreases entries.len(),
{
    if entries.len() == 0 {
        Seq::empty()
    } else {
        spec_metadata_entries(entries.drop_last()).push(spec_metadata_of(entries.last()))
    }
}

/// The section that a top-level directive gives.
pub open spec fn spec_section_of(directive: (TopLevelDirectiveView, nat, nat)) -> SectionView {
    match directive.0 {
        TopLevelDirectiveView::Section(SectionDefinitionView::Metadata(entries)) => SectionView::Metadata(
            spec_metadata_entries(entries),
        ),
    }
}

/// The sections that top-level directives give, in order.
pub open spec fn spec_sections_of(directives: Seq<(TopLevelDirectiveView, nat, nat)>) -> Seq<SectionView>
    decreases directives.len(),
{
    if directives.len() == 0 {
        Seq::empty()
    } else {
        spec_sections_of(directives.drop_last()).push(spec_section_of(directives.last()))
    }
}

/// The module that the directives describe: one section for each, in the current format version.
pub open spec fn spec_module_of(directives: Seq<(TopLevelDirectiveView, nat, nat)>) -> ModuleView {
    ModuleView {
        format_version: crate::versioning::spec_current_format(),
        sections: spec_sections_of(directives),
    }
}

/// The metadata entries of a metadata section.
fn metadata_entries(entries: &Vec<Located<MetadataDirective>>) -> (r: Vec<Metadata>)
    ensures
        spec_views(r@) == spec_metadata_entries(spec_views(entries@)),
{
    let ghost views = spec_views(entries@);
    let mut r: Vec<Metadata> = Vec::new();
    let mut i: usize = 0;
    assert(views.subrange(0, 0) =~= Seq::<(MetadataDirectiveView, nat, nat)>::empty());
    assert(spec_views(r@) =~= Seq::<MetadataView>::empty());
    while i < entries.len()
        invariant
            i <= entries@.len(),
            views == spec_views(entries@),
            spec_views(r@) == spec_metadata_entries(views.subrange(0, i as int)),
        decreases entries@.len() - i,
    {
        let ghost before = r@;
        match &entries[i].node {
            MetadataDirective::Name(name) => r.push(Metadata::Name(name.node.clone())),
        }
        assert(views.subrange(0, i + 1).drop_last() =~= views.subrange(0, i as int));
        assert(views.subrange(0, i + 1).last() == entries@[i as int]@);
        assert(spec_views(r@) =~= spec_views(before).push(r@.last()@));
        i = i + 1;
    }
    assert(views.subrange(0, i as int) =~= views);
    r
}

/// Produces the module that the abstract syntax tree describes: a section for each top-level directive, in order.
///
/// No errors arise here, so `errors` stays as it is.
pub fn assemble(inputs: parser::Output, errors: &mut Vec<Error>) -> (r: Module)
    ensures
        r@ == spec_module_of(inputs@.tree),
        spec_error_views(final(errors)@) == spec_error_views(old(errors)@),
{
    let mut module = Module::new();
    let root = inputs.into_tree();
    let directives = &root.directives;
    let ghost views = spec_views(directives@);
    let mut sections: Vec<Section> = Vec::new();
    let mut i: usize = 0;
    assert(views.subrange(0, 0) =~= Seq::<(TopLevelDirectiveView, nat, nat)>::empty());
    assert(spec_views(sections@) =~= Seq::<SectionView>::empty());
    while i < directives.len()
        invariant
            i <= directives@.len(),
            views == spec_views(directives@),
            spec_views(sections@) == spec_sections_of(views.subrange(0, i as int)),
        decreases directives@.len() - i,
    {
        let ghost before = sections@;
        match &directives[i].node {
            TopLevelDirective::Section(SectionDefinition::Metadata(entries)) => {
                sections.push(Section::Metadata(metadata_entries(entries)));
            },
        }
        assert(views.subrange(0, i + 1).drop_last() =~= views.subrange(0, i as int));
        assert(views.subrange(0, i + 1).last() == directives@[i as int]@);
        assert(spec_views(sections@) =~= spec_views(before).push(sections@.last()@));
        i = i + 1;
    }
    assert(views.subrange(0, i as int) =~= views);
    module.set_sections(sections);
    module
}

} // verus!

//! The abstract syntax tree of an IL4IL assembly program, where each node corresponds to content of the module.
use vstd::prelude::*;
use crate::assembly::syntax::Located;
use crate::binary::parser::spec_views;
use crate::module::ModuleName;

verus! {

/// A directive inside a metadata section.
#[derive(Debug, Eq, PartialEq)]
pub enum MetadataDirective {
    /// The name of the module.
    Name(Located<ModuleName>),
}

/// A directive inside a metadata section, in specifications.
pub enum MetadataDirectiveView {
    Name((Seq<char>, nat, nat)),
}

impl View for MetadataDirective {
    type V = MetadataDirectiveView;

    open spec fn view(&self) -> MetadataDirectiveView {
        match self {
            MetadataDirective::Name(name) => MetadataDirectiveView::Name(name@),
        }
    }
}

/// The definition of a section.
#[derive(Debug, Eq, PartialEq)]
pub enum SectionDefinition {
    Metadata(Vec<Located<MetadataDirective>>),
}

/// The definition of a section, in specifications.
pub enum SectionDefinitionView {
    Metadata(Seq<(MetadataDirectiveView, nat, nat)>),
}

impl View for SectionDefinition {
    type V = SectionDefinitionView;

    open spec fn view(&self) -> SectionDefinitionView {
        match self {
            SectionDefinition::Metadata(entries) => SectionDefinitionView::Metadata(spec_views(entries@)),
        }
    }
}

/// A directive at the top level of a program.
#[derive(Debug, Eq, PartialEq)]
pub enum TopLevelDirective {
    Section(SectionDefinition),
}

/// A directive at the top level of a program, in specifications.
pub enum TopLevelDirectiveView {
    Section(SectionDefinitionView),
}

impl View for TopLevelDirective {
    type V = TopLevelDirectiveView;

    open spec fn view(&self) -> TopLevelDirectiveView {
        match self {
            TopLevelDirective::Section(section) => TopLevelDirectiveView::Section(section@),
        }
    }
}

/// The root of the abstract syntax tree.
#[derive(Debug)]
pub struct Root {
    pub directives: Vec<Located<TopLevelDirective>>,
}

impl View for Root {
    type V = Seq<(TopLevelDirectiveView, nat, nat)>;

    open spec fn view(&self) -> Seq<(TopLevelDirectiveView, nat, nat)> {
        spec_views(self.directives@)
    }
}

} // verus!

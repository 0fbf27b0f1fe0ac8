//! An in-memory representation of IL4IL modules.
pub mod name;
pub mod section;

pub use name::ModuleName;

use vstd::prelude::*;
use crate::module::section::Section;
use crate::versioning::SupportedFormat;

verus! {

/// An in-memory representation of an IL4IL module.
#[derive(Clone, Debug)]
pub struct Module {
    format_version: SupportedFormat,
    sections: Vec<Section>,
}

impl Module {
    /// The format version of the module, in specifications.
    pub closed spec fn spec_format_version(&self) -> SupportedFormat {
        self.format_version
    }

    /// The sections of the module, in specifications.
    pub closed spec fn spec_sections(&self) -> Seq<Section> {
        self.sections@
    }

    /// Creates a module with the given format version and sections.
    pub fn with_format_version_and_sections(format_version: SupportedFormat, sections: Vec<Section>) -> (r: Self)
        ensures
            r.spec_format_version() == format_version,
            r.spec_sections() == sections@,
    {
        Self { format_version, sections }
    }

    /// Creates an empty module with the current format version.
    pub fn new() -> (r: Self)
        ensures
            r.spec_format_version()@ == crate::versioning::spec_current_format(),
            r.spec_sections() == Seq::<Section>::empty(),
    {
        Self::with_format_version_and_sections(SupportedFormat::current(), Vec::new())
    }

    /// Returns the format version of the module.
    pub fn format_version(&self) -> (r: SupportedFormat)
        ensures
            r == self.spec_format_version(),
    {
        self.format_version
    }

    /// Returns a reference module's sections.
    pub fn sections(&self) -> (r: &Vec<Section>)
        ensures
            r@ == self.spec_sections(),
    {
        &self.sections
    }

    /// Appends a section to the module.
    pub fn push_section(&mut self, section: Section)
        ensures
            final(self).spec_sections() == old(self).spec_sections().push(section),
            final(self).spec_format_version() == old(self).spec_format_version(),
    {
        self.sections.push(section)
    }

    /// Returns a mutable reference to the module's sections; the format version stays as it was.
    pub fn sections_mut(&mut self) -> (r: &mut Vec<Section>)
        ensures
            r@ == old(self).spec_sections(),
            final(self).spec_sections() == final(r)@,
            final(self).spec_format_version() == old(self).spec_format_version(),
    {
        &mut self.sections
    }

    /// Replaces the sections of the module.
    pub fn set_sections(&mut self, sections: Vec<Section>)
        ensures
            final(self).spec_sections() == sections@,
            final(self).spec_format_version() == old(self).spec_format_version(),
    {
        self.sections = sections;
    }

    /// Returns the module's sections.
    pub fn into_sections(self) -> (r: Vec<Section>)
        ensures
            r@ == self.spec_sections(),
    {
        self.sections
    }

    /// Returns the module, which owns all of its contents.
    pub fn into_owned(self) -> (r: Self)
        ensures
            r == self,
    {
        self
    }
}

/// A module, in specifications.
pub struct ModuleView {
    pub format_version: crate::versioning::Format,
    pub sections: Seq<section::SectionView>,
}

impl View for Module {
    type V = ModuleView;

    open spec fn view(&self) -> ModuleView {
        ModuleView {
            format_version: self.spec_format_version()@,
            sections: crate::binary::parser::spec_views(self.spec_sections()),
        }
    }
}

} // verus!

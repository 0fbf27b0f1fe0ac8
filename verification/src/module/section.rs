//! Contains types that model the sections of an IL4IL module.
use vstd::prelude::*;
use crate::module::ModuleName;

verus! {

/// Indicates the kind of metadata.
#[derive(Clone, Copy, Debug, PartialEq, Eq, Structural, Hash)]
pub enum MetadataKind {
    Name,
}

/// The byte that a metadata kind is written as.
pub open spec fn spec_metadata_kind_byte(kind: MetadataKind) -> u8 {
    match kind {
        MetadataKind::Name => 0,
    }
}

impl MetadataKind {
    /// Gets the metadata kind written as the given byte.
    pub fn new(value: u8) -> (r: Option<Self>)
        ensures
            r matches Some(k) ==> spec_metadata_kind_byte(k) == value,
            r is None ==> forall|k: MetadataKind| spec_metadata_kind_byte(k) != value,
    {
        if value == 0 {
            Some(MetadataKind::Name)
        } else {
            None
        }
    }

    /// The byte that this metadata kind is written as.
    pub fn to_u8(self) -> (r: u8)
        ensures
            r == spec_metadata_kind_byte(self),
    {
        match self {
            MetadataKind::Name => 0,
        }
    }
}

/// Describes an IL4IL module.
#[derive(Clone, Debug, PartialEq, Eq)]
pub enum Metadata {
    /// Specifies the name of an IL4IL module.
    Name(ModuleName),
}

/// The kind of a metadata entry.
pub open spec fn spec_metadata_kind(metadata: Metadata) -> MetadataKind {
    match metadata {
        Metadata::Name(_) => MetadataKind::Name,
    }
}

impl Metadata {
    /// Returns the metadata, which owns all of its contents.
    pub fn into_owned(self) -> (r: Self)
        ensures
            r == self,
    {
        self
    }

    /// The kind of the metadata entry.
    pub fn kind(&self) -> (r: MetadataKind)
        ensures
            r == spec_metadata_kind(*self),
    {
        match self {
            Self::Name(_) => MetadataKind::Name,
        }
    }
}

/// Indicates the kind of section.
#[derive(Clone, Copy, Debug, PartialEq, Eq, Structural, Hash)]
pub enum SectionKind {
    Metadata,
    ModuleImport,
    Symbol,
    Type,
    FunctionSignature,
    FunctionInstantiation,
    FunctionImport,
    FunctionDefinition,
    Code,
    EntryPoint,
}

/// The byte that a section kind is written as.
pub open spec fn spec_section_kind_byte(kind: SectionKind) -> u8 {
    match kind {
        SectionKind::Metadata => 0,
        SectionKind::ModuleImport => 1,
        SectionKind::Symbol => 3,
        SectionKind::Type => 4,
        SectionKind::FunctionSignature => 5,
        SectionKind::FunctionInstantiation => 6,
        SectionKind::FunctionImport => 7,
        SectionKind::FunctionDefinition => 8,
        SectionKind::Code => 9,
        SectionKind::EntryPoint => 10,
    }
}

impl SectionKind {
    /// Gets the section kind written as the given byte.
    pub fn new(value: u8) -> (r: Option<Self>)
        ensures
            r matches Some(k) ==> spec_section_kind_byte(k) == value,
            r is None ==> forall|k: SectionKind| spec_section_kind_byte(k) != value,
    {
        match value {
            0 => Some(SectionKind::Metadata),
            1 => Some(SectionKind::ModuleImport),
            3 => Some(SectionKind::Symbol),
            4 => Some(SectionKind::Type),
            5 => Some(SectionKind::FunctionSignature),
            6 => Some(SectionKind::FunctionInstantiation),
            7 => Some(SectionKind::FunctionImport),
            8 => Some(SectionKind::FunctionDefinition),
            9 => Some(SectionKind::Code),
            10 => Some(SectionKind::EntryPoint),
            _ => None,
        }
    }

    /// The byte that this section kind is written as.
    pub fn to_u8(self) -> (r: u8)
        ensures
            r == spec_section_kind_byte(self),
    {
        match self {
            SectionKind::Metadata => 0,
            SectionKind::ModuleImport => 1,
            SectionKind::Symbol => 3,
            SectionKind::Type => 4,
            SectionKind::FunctionSignature => 5,
            SectionKind::FunctionInstantiation => 6,
            SectionKind::FunctionImport => 7,
            SectionKind::FunctionDefinition => 8,
            SectionKind::Code => 9,
            SectionKind::EntryPoint => 10,
        }
    }
}

/// Represents an IL4IL module section.
#[derive(Clone, Debug, PartialEq, Eq)]
pub enum Section {
    /// The metadata section contains information about the module.
    Metadata(Vec<Metadata>),
    /// Specifies the modules that the module imports.
    ModuleImport(Vec<ModuleName>),
    /// Assigns symbols to the contents of the module.
    Symbol(Vec<crate::symbol::Assignment>),
    /// The type section stores commonly used types throughout the module.
    Type(Vec<crate::type_system::Type>),
    /// The function signature section stores the parameter and return types of functions throughout the module.
    FunctionSignature(Vec<crate::function::Signature>),
    /// Instantiations of function templates.
    FunctionInstantiation(Vec<crate::function::Instantiation>),
    /// Functions imported from other modules.
    FunctionImport(Vec<crate::function::Import>),
    /// Functions defined by the module.
    FunctionDefinition(Vec<crate::function::Definition>),
    /// The code section contains function bodies, which consist of basic blocks containing sequences of instructions.
    Code(Vec<crate::function::Body>),
    /// Specifies an entry point function for the module.
    EntryPoint(crate::index::FunctionInstantiation),
}

/// The kind of a section.
pub open spec fn spec_section_kind(section: Section) -> SectionKind {
    match section {
        Section::Metadata(_) => SectionKind::Metadata,
        Section::ModuleImport(_) => SectionKind::ModuleImport,
        Section::Symbol(_) => SectionKind::Symbol,
        Section::Type(_) => SectionKind::Type,
        Section::FunctionSignature(_) => SectionKind::FunctionSignature,
        Section::FunctionInstantiation(_) => SectionKind::FunctionInstantiation,
        Section::FunctionImport(_) => SectionKind::FunctionImport,
        Section::FunctionDefinition(_) => SectionKind::FunctionDefinition,
        Section::Code(_) => SectionKind::Code,
        Section::EntryPoint(_) => SectionKind::EntryPoint,
    }
}

impl Section {
    /// Returns the section, which owns all of its contents.
    pub fn into_owned(self) -> (r: Self)
        ensures
            r == self,
    {
        self
    }

    /// The kind of the section.
    pub fn kind(&self) -> (r: SectionKind)
        ensures
            r == spec_section_kind(*self),
    {
        match self {
            Self::Metadata(_) => SectionKind::Metadata,
            Self::ModuleImport(_) => SectionKind::ModuleImport,
            Self::Symbol(_) => SectionKind::Symbol,
            Self::Type(_) => SectionKind::Type,
            Self::FunctionSignature(_) => SectionKind::FunctionSignature,
            Self::FunctionInstantiation(_) => SectionKind::FunctionInstantiation,
            Self::FunctionImport(_) => SectionKind::FunctionImport,
            Self::FunctionDefinition(_) => SectionKind::FunctionDefinition,
            Self::Code(_) => SectionKind::Code,
            Self::EntryPoint(_) => SectionKind::EntryPoint,
        }
    }
}

/// A metadata entry, in specifications.
pub enum MetadataView {
    Name(Seq<char>),
}

impl View for Metadata {
    type V = MetadataView;

    open spec fn view(&self) -> MetadataView {
        match self {
            Metadata::Name(name) => MetadataView::Name(name@),
        }
    }
}

/// A section, in specifications.
pub enum SectionView {
    Metadata(Seq<MetadataView>),
    ModuleImport(Seq<Seq<char>>),
    Symbol(Seq<crate::symbol::AssignmentView>),
    Type(Seq<crate::type_system::TypeView>),
    FunctionSignature(Seq<crate::function::SignatureView>),
    FunctionInstantiation(Seq<usize>),
    FunctionImport(Seq<crate::function::ImportView>),
    FunctionDefinition(Seq<(usize, usize)>),
    Code(Seq<crate::function::BodyView>),
    EntryPoint(usize),
}

/// The kind of a section, in specifications.
pub open spec fn spec_section_view_kind(section: SectionView) -> SectionKind {
    match section {
        SectionView::Metadata(_) => SectionKind::Metadata,
        SectionView::ModuleImport(_) => SectionKind::ModuleImport,
        SectionView::Symbol(_) => SectionKind::Symbol,
        SectionView::Type(_) => SectionKind::Type,
        SectionView::FunctionSignature(_) => SectionKind::FunctionSignature,
        SectionView::FunctionInstantiation(_) => SectionKind::FunctionInstantiation,
        SectionView::FunctionImport(_) => SectionKind::FunctionImport,
        SectionView::FunctionDefinition(_) => SectionKind::FunctionDefinition,
        SectionView::Code(_) => SectionKind::Code,
        SectionView::EntryPoint(_) => SectionKind::EntryPoint,
    }
}

impl View for Section {
    type V = SectionView;

    open spec fn view(&self) -> SectionView {
        match self {
            Section::Metadata(v) => SectionView::Metadata(crate::binary::parser::spec_views(v@)),
            Section::ModuleImport(v) => SectionView::ModuleImport(crate::binary::parser::spec_views(v@)),
            Section::Symbol(v) => SectionView::Symbol(crate::binary::parser::spec_views(v@)),
            Section::Type(v) => SectionView::Type(crate::binary::parser::spec_views(v@)),
            Section::FunctionSignature(v) => SectionView::FunctionSignature(crate::binary::parser::spec_views(v@)),
            Section::FunctionInstantiation(v) => SectionView::FunctionInstantiation(
                crate::binary::parser::spec_views(v@),
            ),
            Section::FunctionImport(v) => SectionView::FunctionImport(crate::binary::parser::spec_views(v@)),
            Section::FunctionDefinition(v) => SectionView::FunctionDefinition(crate::binary::parser::spec_views(v@)),
            Section::Code(v) => SectionView::Code(crate::binary::parser::spec_views(v@)),
            Section::EntryPoint(index) => SectionView::EntryPoint(index@),
        }
    }
}

} // verus!

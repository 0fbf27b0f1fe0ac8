//! Contains types that model the contents of a valid IL4IL module.
use vstd::prelude::*;
use crate::binary::parser::spec_views;
use crate::function;
use crate::function::Template;
use crate::module::Module;
use crate::module::ModuleName;
use crate::module::section::Metadata;
use crate::module::section::Section;
use crate::module::section::SectionView;
use crate::type_system;

verus! {

/// The entries of one kind that a section holds, for each kind of entry.
pub open spec fn spec_section_metadata(s: SectionView) -> Seq<crate::module::section::MetadataView> {
    match s {
        SectionView::Metadata(v) => v,
        _ => Seq::empty(),
    }
}

/// The symbol assignments that a section holds.
pub open spec fn spec_section_symbols(s: SectionView) -> Seq<crate::symbol::AssignmentView> {
    match s {
        SectionView::Symbol(v) => v,
        _ => Seq::empty(),
    }
}

/// The types that a section holds.
pub open spec fn spec_section_types(s: SectionView) -> Seq<type_system::TypeView> {
    match s {
        SectionView::Type(v) => v,
        _ => Seq::empty(),
    }
}

/// The function signatures that a section holds.
pub open spec fn spec_section_signatures(s: SectionView) -> Seq<function::SignatureView> {
    match s {
        SectionView::FunctionSignature(v) => v,
        _ => Seq::empty(),
    }
}

/// The function instantiations that a section holds.
pub open spec fn spec_section_instantiations(s: SectionView) -> Seq<usize> {
    match s {
        SectionView::FunctionInstantiation(v) => v,
        _ => Seq::empty(),
    }
}

/// The function imports that a section holds.
pub open spec fn spec_section_imports(s: SectionView) -> Seq<function::ImportView> {
    match s {
        SectionView::FunctionImport(v) => v,
        _ => Seq::empty(),
    }
}

/// The function definitions that a section holds.
pub open spec fn spec_section_definitions(s: SectionView) -> Seq<(usize, usize)> {
    match s {
        SectionView::FunctionDefinition(v) => v,
        _ => Seq::empty(),
    }
}

/// The function bodies that a section holds.
pub open spec fn spec_section_bodies(s: SectionView) -> Seq<function::BodyView> {
    match s {
        SectionView::Code(v) => v,
        _ => Seq::empty(),
    }
}

/// The entry point that a section specifies.
pub open spec fn spec_section_entry_points(s: SectionView) -> Seq<usize> {
    match s {
        SectionView::EntryPoint(index) => seq![index],
        _ => Seq::empty(),
    }
}

/// The imported modules that a section holds.
pub open spec fn spec_section_module_imports(s: SectionView) -> Seq<Seq<char>> {
    match s {
        SectionView::ModuleImport(v) => v,
        _ => Seq::empty(),
    }
}

/// Picks out the entries that [`spec_section_metadata`] gives.
pub open spec fn select_metadata() -> spec_fn(SectionView) -> Seq<crate::module::section::MetadataView> {
    |s: SectionView| spec_section_metadata(s)
}

/// Picks out the entries that [`spec_section_symbols`] gives.
pub open spec fn select_symbols() -> spec_fn(SectionView) -> Seq<crate::symbol::AssignmentView> {
    |s: SectionView| spec_section_symbols(s)
}

/// Picks out the entries that [`spec_section_types`] gives.
pub open spec fn select_types() -> spec_fn(SectionView) -> Seq<type_system::TypeView> {
    |s: SectionView| spec_section_types(s)
}

/// Picks out the entries that [`spec_section_signatures`] gives.
pub open spec fn select_signatures() -> spec_fn(SectionView) -> Seq<function::SignatureView> {
    |s: SectionView| spec_section_signatures(s)
}

/// Picks out the entries that [`spec_section_instantiations`] gives.
pub open spec fn select_instantiations() -> spec_fn(SectionView) -> Seq<usize> {
    |s: SectionView| spec_section_instantiations(s)
}

/// Picks out the entries that [`spec_section_imports`] gives.
pub open spec fn select_imports() -> spec_fn(SectionView) -> Seq<function::ImportView> {
    |s: SectionView| spec_section_imports(s)
}

/// Picks out the entries that [`spec_section_definitions`] gives.
pub open spec fn select_definitions() -> spec_fn(SectionView) -> Seq<(usize, usize)> {
    |s: SectionView| spec_section_definitions(s)
}

/// Picks out the entries that [`spec_section_bodies`] gives.
pub open spec fn select_bodies() -> spec_fn(SectionView) -> Seq<function::BodyView> {
    |s: SectionView| spec_section_bodies(s)
}

/// Picks out the entries that [`spec_section_entry_points`] gives.
pub open spec fn select_entry_points() -> spec_fn(SectionView) -> Seq<usize> {
    |s: SectionView| spec_section_entry_points(s)
}

/// Picks out the entries that [`spec_section_module_imports`] gives.
pub open spec fn select_module_imports() -> spec_fn(SectionView) -> Seq<Seq<char>> {
    |s: SectionView| spec_section_module_imports(s)
}

/// The entries of the sections, in order, as `select` picks them out of each section.
pub open spec fn spec_collect<V>(sections: Seq<SectionView>, select: spec_fn(SectionView) -> Seq<V>) -> Seq<V>
    decreases sections.len(),
{
    if sections.len() == 0 {
        Seq::empty()
    } else {
        spec_collect(sections.drop_last(), select) + select(sections.last())
    }
}

/// The function templates of the sections: each function import and function definition, in order, numbered by its
/// position among the imports or among the definitions.
pub open spec fn spec_templates(sections: Seq<SectionView>) -> Seq<Template>
    decreases sections.len(),
{
    if sections.len() == 0 {
        Seq::empty()
    } else {
        let earlier = sections.drop_last();
        spec_templates(earlier) + match sections.last() {
            SectionView::FunctionImport(v) => {
                let start = spec_collect(earlier, select_imports()).len();
                Seq::new(v.len(), |j: int| Template::Import((start + j) as usize))
            },
            SectionView::FunctionDefinition(v) => {
                let start = spec_collect(earlier, select_definitions()).len();
                Seq::new(v.len(), |j: int| Template::Definition((start + j) as usize))
            },
            _ => Seq::empty(),
        }
    }
}

/// The position of the first error among the outcomes.
pub open spec fn spec_first_error<T, E>(results: Seq<Result<T, E>>) -> Option<nat>
    decreases results.len(),
{
    if results.len() == 0 {
        None
    } else {
        match spec_first_error(results.drop_last()) {
            Some(i) => Some(i),
            None => if results.last() is Err {
                Some((results.len() - 1) as nat)
            } else {
                None
            },
        }
    }
}

/// The views of the sections among the outcomes.
pub open spec fn spec_ok_views<E>(results: Seq<Result<Section, E>>) -> Seq<SectionView> {
    Seq::new(results.len(), |i: int| results[i]->Ok_0@)
}

/// Adding an outcome to outcomes without an error finds an error only at the new outcome.
proof fn lemma_first_error_push<T, E>(results: Seq<Result<T, E>>, r: Result<T, E>)
    requires
        spec_first_error(results) is None,
    ensures
        spec_first_error(results.push(r)) == (if r is Err {
            Some(results.len())
        } else {
            None::<nat>
        }),
{
    assert(results.push(r).drop_last() =~= results);
}

/// The first error of a prefix is the first error of the whole.
proof fn lemma_first_error_prefix<T, E>(results: Seq<Result<T, E>>, k: int)
    requires
        0 <= k <= results.len(),
        spec_first_error(results.take(k)) is Some,
    ensures
        spec_first_error(results) == spec_first_error(results.take(k)),
    decreases results.len() - k,
{
    if k < results.len() {
        assert(results.take(k + 1).drop_last() =~= results.take(k));
        lemma_first_error_prefix(results, k + 1);
    } else {
        assert(results.take(k) =~= results);
    }
}

/// Represents the contents of an IL4IL module, with the entries of each kind of section gathered together.
pub struct ModuleContents {
    pub metadata: Vec<Metadata>,
    pub symbols: Vec<crate::symbol::Assignment>,
    pub types: Vec<type_system::Type>,
    pub function_signatures: Vec<function::Signature>,
    pub function_imports: Vec<function::Import>,
    pub function_definitions: Vec<function::Definition>,
    pub function_bodies: Vec<function::Body>,
    pub function_templates: function::TemplateLookup,
    pub function_instantiations: Vec<function::Instantiation>,
    pub entry_point: Vec<crate::index::FunctionInstantiation>,
    pub module_imports: Vec<ModuleName>,
}

/// Whether the contents hold the entries of the sections, in order.
pub open spec fn spec_holds_sections(c: &ModuleContents, sections: Seq<SectionView>) -> bool {
    &&& spec_views(c.metadata@) == spec_collect(sections, select_metadata())
    &&& spec_views(c.symbols@) == spec_collect(sections, select_symbols())
    &&& spec_views(c.types@) == spec_collect(sections, select_types())
    &&& spec_views(c.function_signatures@) == spec_collect(sections, select_signatures())
    &&& spec_views(c.function_imports@) == spec_collect(sections, select_imports())
    &&& spec_views(c.function_definitions@) == spec_collect(sections, select_definitions())
    &&& spec_views(c.function_bodies@) == spec_collect(sections, select_bodies())
    &&& c.function_templates@ == spec_templates(sections)
    &&& spec_views(c.function_instantiations@) == spec_collect(sections, select_instantiations())
    &&& spec_views(c.entry_point@) == spec_collect(sections, select_entry_points())
    &&& spec_views(c.module_imports@) == spec_collect(sections, select_module_imports())
}

/// Appends the views of `b` to those of `a`.
proof fn lemma_views_append<T: View>(a: Seq<T>, b: Seq<T>)
    ensures
        spec_views(a + b) == spec_views(a) + spec_views(b),
{
    assert(spec_views(a + b) =~= spec_views(a) + spec_views(b));
}

/// Appends the templates numbered from `start` to `end`, as definitions or as imports.
fn insert_templates(templates: &mut function::TemplateLookup, start: usize, end: usize, definitions: bool)
    requires
        start <= end,
    ensures
        final(templates)@ == old(templates)@ + Seq::new(
            (end - start) as nat,
            |j: int| if definitions {
                Template::Definition((start + j) as usize)
            } else {
                Template::Import((start + j) as usize)
            },
        ),
{
    let mut k = start;
    while k < end
        invariant
            start <= k <= end,
            templates@ == old(templates)@ + Seq::new(
                (k - start) as nat,
                |j: int| if definitions {
                    Template::Definition((start + j) as usize)
                } else {
                    Template::Import((start + j) as usize)
                },
            ),
        decreases end - k,
    {
        templates.insert(if definitions { Template::Definition(k) } else { Template::Import(k) });
        k = k + 1;
        assert(templates@ =~= old(templates)@ + Seq::new(
            (k - start) as nat,
            |j: int| if definitions {
                Template::Definition((start + j) as usize)
            } else {
                Template::Import((start + j) as usize)
            },
        ));
    }
}

impl ModuleContents {
    /// Creates empty module contents.
    pub fn new() -> (r: Self)
        ensures
            spec_holds_sections(&r, Seq::empty()),
    {
        let r = ModuleContents {
            metadata: Vec::new(),
            symbols: Vec::new(),
            types: Vec::new(),
            function_signatures: Vec::new(),
            function_imports: Vec::new(),
            function_definitions: Vec::new(),
            function_bodies: Vec::new(),
            function_templates: function::TemplateLookup::new(),
            function_instantiations: Vec::new(),
            entry_point: Vec::new(),
            module_imports: Vec::new(),
        };
        assert(spec_views(r.metadata@) =~= Seq::empty());
        assert(spec_views(r.symbols@) =~= Seq::empty());
        assert(spec_views(r.types@) =~= Seq::empty());
        assert(spec_views(r.function_signatures@) =~= Seq::empty());
        assert(spec_views(r.function_imports@) =~= Seq::empty());
        assert(spec_views(r.function_definitions@) =~= Seq::empty());
        assert(spec_views(r.function_bodies@) =~= Seq::empty());
        assert(spec_views(r.function_instantiations@) =~= Seq::empty());
        assert(spec_views(r.entry_point@) =~= Seq::empty());
        assert(spec_views(r.module_imports@) =~= Seq::empty());
        r
    }

    /// Adds the entries of a section to the contents.
    #[verifier::rlimit(60)]
    fn add_section(&mut self, section: Section, Ghost(earlier): Ghost<Seq<SectionView>>)
        requires
            spec_holds_sections(old(self), earlier),
        ensures
            spec_holds_sections(final(self), earlier.push(section@)),
    {
        let ghost all = earlier.push(section@);
        assert(all.drop_last() =~= earlier);
        match section {
            Section::Metadata(mut v) => {
                proof {
                    lemma_views_append(self.metadata@, v@);
                }
                self.metadata.append(&mut v);
            },
            Section::Symbol(mut v) => {
                proof {
                    lemma_views_append(self.symbols@, v@);
                }
                self.symbols.append(&mut v);
            },
            Section::Type(mut v) => {
                proof {
                    lemma_views_append(self.types@, v@);
                }
                self.types.append(&mut v);
            },
            Section::FunctionSignature(mut v) => {
                proof {
                    lemma_views_append(self.function_signatures@, v@);
                }
                self.function_signatures.append(&mut v);
            },
            Section::FunctionInstantiation(mut v) => {
                proof {
                    lemma_views_append(self.function_instantiations@, v@);
                }
                self.function_instantiations.append(&mut v);
            },
            Section::FunctionImport(mut v) => {
                let start = self.function_imports.len();
                proof {
                    lemma_views_append(self.function_imports@, v@);
                }
                self.function_imports.append(&mut v);
                let end = self.function_imports.len();
                insert_templates(&mut self.function_templates, start, end, false);
            },
            Section::FunctionDefinition(mut v) => {
                let start = self.function_definitions.len();
                proof {
                    lemma_views_append(self.function_definitions@, v@);
                }
                self.function_definitions.append(&mut v);
                let end = self.function_definitions.len();
                insert_templates(&mut self.function_templates, start, end, true);
            },
            Section::Code(mut v) => {
                proof {
                    lemma_views_append(self.function_bodies@, v@);
                }
                self.function_bodies.append(&mut v);
            },
            Section::EntryPoint(index) => {
                let ghost before = self.entry_point@;
                self.entry_point.push(index);
                assert(spec_views(self.entry_point@) =~= spec_views(before) + seq![index@]);
            },
            Section::ModuleImport(mut v) => {
                proof {
                    lemma_views_append(self.module_imports@, v@);
                }
                self.module_imports.append(&mut v);
            },
        }
        assert(spec_views(self.metadata@) == spec_collect(all, select_metadata()));
        assert(spec_views(self.symbols@) == spec_collect(all, select_symbols()));
        assert(spec_views(self.types@) == spec_collect(all, select_types()));
        assert(spec_views(self.function_signatures@) == spec_collect(all, select_signatures()));
        assert(spec_views(self.function_imports@) == spec_collect(all, select_imports()));
        assert(spec_views(self.function_definitions@) == spec_collect(all, select_definitions()));
        assert(spec_views(self.function_bodies@) == spec_collect(all, select_bodies()));
        assert(self.function_templates@ == spec_templates(all));
        assert(spec_views(self.function_instantiations@) == spec_collect(all, select_instantiations()));
        assert(spec_views(self.entry_point@) == spec_collect(all, select_entry_points()));
        assert(spec_views(self.module_imports@) == spec_collect(all, select_module_imports()));
    }

    /// Gathers the entries of the sections, in order.
    pub fn from_sections(sections: Vec<Section>) -> (r: Self)
        ensures
            spec_holds_sections(&r, spec_views(sections@)),
    {
        let mut contents = ModuleContents::new();
        let mut remaining = sections;
        let ghost all = spec_views(sections@);
        let ghost n = sections@.len();
        while remaining.len() > 0
            invariant
                remaining@.len() <= n,
                n == sections@.len(),
                all.len() == n,
                all == spec_views(sections@),
                spec_views(remaining@) == all.skip(n - remaining@.len()),
                spec_holds_sections(&contents, all.take(n - remaining@.len())),
            decreases remaining@.len(),
        {
            let ghost taken = all.take(n - remaining@.len());
            let ghost position = n - remaining@.len();
            assert(spec_views(remaining@)[0] == all[position]);
            let ghost before = remaining@;
            let section = remaining.remove(0);
            assert(section@ == all[position]);
            assert(remaining@ =~= before.subrange(1, before.len() as int));
            contents.add_section(section, Ghost(taken));
            assert(taken.push(section@) =~= all.take(n - remaining@.len()));
            assert forall|i: int| 0 <= i < remaining@.len() implies spec_views(remaining@)[i] == all.skip(
                position + 1,
            )[i] by {
                assert(remaining@[i] == before[i + 1]);
                assert(spec_views(before)[i + 1] == all.skip(position)[i + 1]);
            }
            assert(spec_views(remaining@) =~= all.skip(n - remaining@.len()));
        }
        assert(all.take(n as int) =~= all);
        contents
    }

    /// Gathers the entries of the sections, in order, stopping at the first error.
    #[verifier::spinoff_prover]
    pub fn from_sections_fallible<E>(sections: Vec<Result<Section, E>>) -> (r: Result<Self, E>)
        ensures
            match spec_first_error(sections@) {
                Some(i) => r matches Err(e) && sections@[i as int] == Err::<Section, E>(e),
                None => r matches Ok(c) && spec_holds_sections(&c, spec_ok_views(sections@)),
            },
    {
        let mut contents = ModuleContents::new();
        let mut remaining = sections;
        let ghost all = sections@;
        let ghost n = sections@.len();
        while remaining.len() > 0
            invariant
                remaining@.len() <= n,
                n == all.len(),
                all == sections@,
                remaining@ == all.skip(n - remaining@.len()),
                spec_first_error(all.take(n - remaining@.len())) is None,
                spec_holds_sections(&contents, spec_ok_views(all.take(n - remaining@.len()))),
            decreases remaining@.len(),
        {
            let ghost position = n - remaining@.len();
            let ghost taken = all.take(position);
            let ghost before = remaining@;
            let section = remaining.remove(0);
            assert(remaining@ =~= all.skip(n - remaining@.len()));
            assert(all.take(position + 1) =~= taken.push(section));
            match section {
                Ok(section) => {
                    let ghost viewed = spec_ok_views(taken);
                    contents.add_section(section, Ghost(viewed));
                    assert(spec_ok_views(all.take(position + 1)) =~= viewed.push(section@));
                    proof {
                        lemma_first_error_push(taken, Ok(section));
                    }
                },
                Err(e) => {
                    proof {
                        lemma_first_error_push(taken, Err(e));
                        lemma_first_error_prefix(all, position + 1);
                    }
                    return Err(e);
                },
            }
        }
        assert(all.take(n as int) =~= all);
        Ok(contents)
    }

    /// Gathers the entries of the sections of a module, in order.
    pub fn from_module(module: Module) -> (r: Self)
        ensures
            spec_holds_sections(&r, module@.sections),
    {
        Self::from_sections(module.into_sections())
    }

    /// Converts the module contents into a sequence of sections: one section for each kind of entry, in the order of the
    /// section kinds, followed by one entry point section for each entry point. Gathering the entries of these sections
    /// gives back every kind of entry, in order, and numbers the function templates as the imports followed by the
    /// definitions.
    pub fn into_sections(self) -> (r: Vec<Section>)
        ensures
            spec_views(r@) == spec_contents_sections(&self),
            spec_collect(spec_views(r@), select_metadata()) == spec_views(self.metadata@),
            spec_collect(spec_views(r@), select_module_imports()) == spec_views(self.module_imports@),
            spec_collect(spec_views(r@), select_symbols()) == spec_views(self.symbols@),
            spec_collect(spec_views(r@), select_types()) == spec_views(self.types@),
            spec_collect(spec_views(r@), select_signatures()) == spec_views(self.function_signatures@),
            spec_collect(spec_views(r@), select_instantiations()) == spec_views(self.function_instantiations@),
            spec_collect(spec_views(r@), select_imports()) == spec_views(self.function_imports@),
            spec_collect(spec_views(r@), select_definitions()) == spec_views(self.function_definitions@),
            spec_collect(spec_views(r@), select_bodies()) == spec_views(self.function_bodies@),
            spec_collect(spec_views(r@), select_entry_points()) == spec_views(self.entry_point@),
            spec_templates(spec_views(r@)) == spec_numbered_templates(
                self.function_imports@.len(),
                self.function_definitions@.len(),
            ),
    {
        let ghost before = self;
        let mut sections: Vec<Section> = Vec::new();
        sections.push(Section::Metadata(self.metadata));
        sections.push(Section::ModuleImport(self.module_imports));
        sections.push(Section::Symbol(self.symbols));
        sections.push(Section::Type(self.types));
        sections.push(Section::FunctionSignature(self.function_signatures));
        sections.push(Section::FunctionInstantiation(self.function_instantiations));
        sections.push(Section::FunctionImport(self.function_imports));
        sections.push(Section::FunctionDefinition(self.function_definitions));
        sections.push(Section::Code(self.function_bodies));
        let entries = self.entry_point;
        let ghost head = spec_kind_sections(&before);
        assert(spec_views(sections@) =~= head);
        let mut i: usize = 0;
        while i < entries.len()
            invariant
                i <= entries@.len(),
                entries@ == before.entry_point@,
                spec_views(sections@) == head + spec_entry_sections(spec_views(entries@).take(i as int)),
            decreases entries@.len() - i,
        {
            let ghost previous = sections@;
            sections.push(Section::EntryPoint(entries[i]));
            proof {
                let es = spec_views(entries@);
                assert(es.take(i + 1).drop_last() =~= es.take(i as int));
                assert(spec_entry_sections(es.take(i + 1)) =~= spec_entry_sections(es.take(i as int)).push(
                    SectionView::EntryPoint(es[i as int]),
                ));
                assert(spec_views(sections@) =~= spec_views(previous).push(SectionView::EntryPoint(es[i as int])));
            }
            i = i + 1;
        }
        proof {
            assert(spec_views(entries@).take(entries@.len() as int) =~= spec_views(entries@));
            lemma_contents_sections(&before);
        }
        sections
    }

    /// Converts the module contents into a module with the current format version, holding the sections that
    /// [`ModuleContents::into_sections`] gives.
    pub fn into_module(self) -> (r: Module)
        ensures
            r@.format_version == crate::versioning::spec_current_format(),
            r@.sections == spec_contents_sections(&self),
    {
        let sections = self.into_sections();
        let mut module = Module::new();
        module.set_sections(sections);
        module
    }
}

/// The sections that hold each kind of entry of module contents but the entry points, in the order of the section kinds.
pub open spec fn spec_kind_sections(c: &ModuleContents) -> Seq<SectionView> {
    seq![
        SectionView::Metadata(spec_views(c.metadata@)),
        SectionView::ModuleImport(spec_views(c.module_imports@)),
        SectionView::Symbol(spec_views(c.symbols@)),
        SectionView::Type(spec_views(c.types@)),
        SectionView::FunctionSignature(spec_views(c.function_signatures@)),
        SectionView::FunctionInstantiation(spec_views(c.function_instantiations@)),
        SectionView::FunctionImport(spec_views(c.function_imports@)),
        SectionView::FunctionDefinition(spec_views(c.function_definitions@)),
        SectionView::Code(spec_views(c.function_bodies@)),
    ]
}

/// One entry point section for each entry point, in order.
pub open spec fn spec_entry_sections(entry_points: Seq<usize>) -> Seq<SectionView> {
    Seq::new(entry_points.len(), |i: int| SectionView::EntryPoint(entry_points[i]))
}

/// The sections that module contents are converted into.
pub open spec fn spec_contents_sections(c: &ModuleContents) -> Seq<SectionView> {
    spec_kind_sections(c) + spec_entry_sections(spec_views(c.entry_point@))
}

/// The function templates of a module whose function imports are followed by its function definitions.
pub open spec fn spec_numbered_templates(import_count: nat, definition_count: nat) -> Seq<Template> {
    Seq::new(import_count, |j: int| Template::Import(j as usize)) + Seq::new(
        definition_count,
        |j: int| Template::Definition(j as usize),
    )
}

/// Adding a section adds its entries after those of the earlier sections, for every kind of entry.
proof fn lemma_push_section(s: Seq<SectionView>, x: SectionView)
    ensures
        spec_collect(s.push(x), select_metadata()) == spec_collect(s, select_metadata()) + spec_section_metadata(x),
        spec_collect(s.push(x), select_module_imports()) == spec_collect(s, select_module_imports())
            + spec_section_module_imports(x),
        spec_collect(s.push(x), select_symbols()) == spec_collect(s, select_symbols()) + spec_section_symbols(x),
        spec_collect(s.push(x), select_types()) == spec_collect(s, select_types()) + spec_section_types(x),
        spec_collect(s.push(x), select_signatures()) == spec_collect(s, select_signatures())
            + spec_section_signatures(x),
        spec_collect(s.push(x), select_instantiations()) == spec_collect(s, select_instantiations())
            + spec_section_instantiations(x),
        spec_collect(s.push(x), select_imports()) == spec_collect(s, select_imports()) + spec_section_imports(x),
        spec_collect(s.push(x), select_definitions()) == spec_collect(s, select_definitions())
            + spec_section_definitions(x),
        spec_collect(s.push(x), select_bodies()) == spec_collect(s, select_bodies()) + spec_section_bodies(x),
        spec_collect(s.push(x), select_entry_points()) == spec_collect(s, select_entry_points())
            + spec_section_entry_points(x),
        spec_templates(s.push(x)) == spec_templates(s) + match x {
            SectionView::FunctionImport(v) => {
                let start = spec_collect(s, select_imports()).len();
                Seq::new(v.len(), |j: int| Template::Import((start + j) as usize))
            },
            SectionView::FunctionDefinition(v) => {
                let start = spec_collect(s, select_definitions()).len();
                Seq::new(v.len(), |j: int| Template::Definition((start + j) as usize))
            },
            _ => Seq::empty(),
        },
{
    assert(s.push(x).drop_last() =~= s);
}

/// Entry point sections after other sections add the entry points and nothing else.
proof fn lemma_entry_sections(head: Seq<SectionView>, es: Seq<usize>)
    ensures
        spec_collect(head + spec_entry_sections(es), select_metadata()) == spec_collect(head, select_metadata()),
        spec_collect(head + spec_entry_sections(es), select_module_imports()) == spec_collect(
            head,
            select_module_imports(),
        ),
        spec_collect(head + spec_entry_sections(es), select_symbols()) == spec_collect(head, select_symbols()),
        spec_collect(head + spec_entry_sections(es), select_types()) == spec_collect(head, select_types()),
        spec_collect(head + spec_entry_sections(es), select_signatures()) == spec_collect(head, select_signatures()),
        spec_collect(head + spec_entry_sections(es), select_instantiations()) == spec_collect(
            head,
            select_instantiations(),
        ),
        spec_collect(head + spec_entry_sections(es), select_imports()) == spec_collect(head, select_imports()),
        spec_collect(head + spec_entry_sections(es), select_definitions()) == spec_collect(
            head,
            select_definitions(),
        ),
        spec_collect(head + spec_entry_sections(es), select_bodies()) == spec_collect(head, select_bodies()),
        spec_collect(head + spec_entry_sections(es), select_entry_points()) == spec_collect(
            head,
            select_entry_points(),
        ) + es,
        spec_templates(head + spec_entry_sections(es)) == spec_templates(head),
    decreases es.len(),
{
    if es.len() == 0 {
        assert(head + spec_entry_sections(es) =~= head);
        assert(spec_collect(head, select_entry_points()) + es =~= spec_collect(head, select_entry_points()));
    } else {
        let shorter = es.drop_last();
        lemma_entry_sections(head, shorter);
        let before = head + spec_entry_sections(shorter);
        let x = SectionView::EntryPoint(es.last());
        assert(head + spec_entry_sections(es) =~= before.push(x));
        lemma_push_section(before, x);
        assert(spec_section_metadata(x) =~= Seq::empty());
        assert(spec_section_module_imports(x) =~= Seq::empty());
        assert(spec_section_symbols(x) =~= Seq::empty());
        assert(spec_section_types(x) =~= Seq::empty());
        assert(spec_section_signatures(x) =~= Seq::empty());
        assert(spec_section_instantiations(x) =~= Seq::empty());
        assert(spec_section_imports(x) =~= Seq::empty());
        assert(spec_section_definitions(x) =~= Seq::empty());
        assert(spec_section_bodies(x) =~= Seq::empty());
        assert(spec_collect(head, select_entry_points()) + shorter + seq![es.last()] =~= spec_collect(
            head,
            select_entry_points(),
        ) + es);
        assert(spec_templates(before.push(x)) =~= spec_templates(before));
    }
}

/// Gathering the entries of the sections that module contents are converted into gives back each kind of entry, with
/// the templates numbered as the imports followed by the definitions.
#[verifier::rlimit(60)]
proof fn lemma_contents_sections(c: &ModuleContents)
    ensures
        spec_collect(spec_contents_sections(c), select_metadata()) == spec_views(c.metadata@),
        spec_collect(spec_contents_sections(c), select_module_imports()) == spec_views(c.module_imports@),
        spec_collect(spec_contents_sections(c), select_symbols()) == spec_views(c.symbols@),
        spec_collect(spec_contents_sections(c), select_types()) == spec_views(c.types@),
        spec_collect(spec_contents_sections(c), select_signatures()) == spec_views(c.function_signatures@),
        spec_collect(spec_contents_sections(c), select_instantiations()) == spec_views(c.function_instantiations@),
        spec_collect(spec_contents_sections(c), select_imports()) == spec_views(c.function_imports@),
        spec_collect(spec_contents_sections(c), select_definitions()) == spec_views(c.function_definitions@),
        spec_collect(spec_contents_sections(c), select_bodies()) == spec_views(c.function_bodies@),
        spec_collect(spec_contents_sections(c), select_entry_points()) == spec_views(c.entry_point@),
        spec_templates(spec_contents_sections(c)) == spec_numbered_templates(
            c.function_imports@.len(),
            c.function_definitions@.len(),
        ),
{
    let k = spec_kind_sections(c);
    let s0 = Seq::<SectionView>::empty();
    let s1 = s0.push(k[0]);
    let s2 = s1.push(k[1]);
    let s3 = s2.push(k[2]);
    let s4 = s3.push(k[3]);
    let s5 = s4.push(k[4]);
    let s6 = s5.push(k[5]);
    let s7 = s6.push(k[6]);
    let s8 = s7.push(k[7]);
    let s9 = s8.push(k[8]);
    assert(s9 =~= k);
    lemma_push_section(s0, k[0]);
    lemma_push_section(s1, k[1]);
    lemma_push_section(s2, k[2]);
    lemma_push_section(s3, k[3]);
    lemma_push_section(s4, k[4]);
    lemma_push_section(s5, k[5]);
    lemma_push_section(s6, k[6]);
    lemma_push_section(s7, k[7]);
    lemma_push_section(s8, k[8]);
    lemma_entry_sections(k, spec_views(c.entry_point@));
    assert(spec_collect(k, select_metadata()) =~= spec_views(c.metadata@));
    assert(spec_collect(k, select_module_imports()) =~= spec_views(c.module_imports@));
    assert(spec_collect(k, select_symbols()) =~= spec_views(c.symbols@));
    assert(spec_collect(k, select_types()) =~= spec_views(c.types@));
    assert(spec_collect(k, select_signatures()) =~= spec_views(c.function_signatures@));
    assert(spec_collect(k, select_instantiations()) =~= spec_views(c.function_instantiations@));
    assert(spec_collect(k, select_imports()) =~= spec_views(c.function_imports@));
    assert(spec_collect(k, select_definitions()) =~= spec_views(c.function_definitions@));
    assert(spec_collect(k, select_bodies()) =~= spec_views(c.function_bodies@));
    assert(spec_collect(k, select_entry_points()) =~= Seq::<usize>::empty());
    assert(spec_collect(s6, select_imports()) =~= Seq::<function::ImportView>::empty());
    assert(spec_collect(s7, select_definitions()) =~= Seq::<(usize, usize)>::empty());
    assert(spec_views(c.entry_point@) =~= Seq::<usize>::empty() + spec_views(c.entry_point@));
    assert(spec_templates(k) =~= spec_numbered_templates(c.function_imports@.len(), c.function_definitions@.len()));
}

/// Gathering the entries of the sections that module contents are converted into gives back every kind of entry, in
/// order; the function templates come back numbered as the imports followed by the definitions, which are the
/// templates themselves when they were numbered so.
pub proof fn lemma_contents_round_trip(c: &ModuleContents, d: &ModuleContents)
    requires
        spec_holds_sections(d, spec_contents_sections(c)),
    ensures
        spec_views(d.metadata@) == spec_views(c.metadata@),
        spec_views(d.module_imports@) == spec_views(c.module_imports@),
        spec_views(d.symbols@) == spec_views(c.symbols@),
        spec_views(d.types@) == spec_views(c.types@),
        spec_views(d.function_signatures@) == spec_views(c.function_signatures@),
        spec_views(d.function_instantiations@) == spec_views(c.function_instantiations@),
        spec_views(d.function_imports@) == spec_views(c.function_imports@),
        spec_views(d.function_definitions@) == spec_views(c.function_definitions@),
        spec_views(d.function_bodies@) == spec_views(c.function_bodies@),
        spec_views(d.entry_point@) == spec_views(c.entry_point@),
        d.function_templates@ == spec_numbered_templates(c.function_imports@.len(), c.function_definitions@.len()),
        c.function_templates@ == spec_numbered_templates(c.function_imports@.len(), c.function_definitions@.len())
            ==> d.function_templates@ == c.function_templates@,
{
    lemma_contents_sections(c);
}

} // verus!

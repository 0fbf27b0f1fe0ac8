//! Module to perform validation of IL4IL code.
//!
//! Validation ensures that the contents of an IL4IL module are semantically correct. Additionally, validation does not require the
//! resolution of any imports.
pub mod contents;
pub mod error;
pub mod index_checker;
pub mod instruction_checker;
pub mod type_comparer;
pub mod value_checker;

pub use contents::ModuleContents;

use vstd::prelude::*;
use crate::binary::parser::spec_views;
use crate::function::BodyView;
use crate::module::Module;
use crate::symbol::Lookup;
use crate::symbol::SymbolEntry;
use crate::symbol::spec_all_distinct;
use crate::symbol::spec_all_entries;
use crate::symbol::spec_describes_first_duplicate;
use crate::type_system::TypeView;
use crate::validation::error::Error;
use crate::validation::error::ErrorKind;
use crate::validation::error::IndexKind;
use crate::validation::error::InvalidIndexError;
use crate::validation::error::InvalidInstructionKind;
use crate::validation::error::spec_invalid_index;
use crate::validation::instruction_checker::spec_body_blocks;
use crate::validation::instruction_checker::spec_body_problem;
use crate::validation::instruction_checker::spec_describes_problem;
use crate::validation::instruction_checker::validate_body;

verus! {

/// Error type used when an IL4IL module is not valid.
pub type ValidationError = Error;

/// The first check that module contents fail, in the order in which they are checked.
pub enum ValidationFailure {
    /// A symbol has the name or the index of an earlier symbol.
    DuplicateSymbol,
    /// The symbol at the given position among all symbols is assigned to a function template that does not exist.
    SymbolTarget { symbol: nat, index: usize },
    /// The function instantiation at the given position instantiates a function template that does not exist.
    InstantiationTemplate { instantiation: nat, index: usize },
    /// The function body at the given position has a problem, given with its block and instruction.
    Body { body: nat, problem: (nat, Option<nat>, InvalidInstructionKind) },
    /// The function definition at the given position refers to a function signature that does not exist.
    DefinitionSignature { definition: nat, index: usize },
    /// The function definition at the given position refers to a function body that does not exist.
    DefinitionBody { definition: nat, index: usize },
    /// More than one entry point function is specified.
    TooManyEntryPoints { count: nat },
}

/// The position of the first symbol, from position `start` on, whose index is not below `count`.
pub open spec fn spec_first_index_past(entries: Seq<SymbolEntry>, count: nat, start: int) -> Option<nat>
    decreases entries.len() - start,
{
    if start < 0 || start >= entries.len() {
        None
    } else if entries[start].1 >= count {
        Some(start as nat)
    } else {
        spec_first_index_past(entries, count, start + 1)
    }
}

/// The position of the first index, from position `start` on, that is not below `count`.
pub open spec fn spec_first_past(indices: Seq<usize>, count: nat, start: int) -> Option<nat>
    decreases indices.len() - start,
{
    if start < 0 || start >= indices.len() {
        None
    } else if indices[start] >= count {
        Some(start as nat)
    } else {
        spec_first_past(indices, count, start + 1)
    }
}

/// The first function body, from position `start` on, that has a problem, with its position and the problem.
pub open spec fn spec_first_body_problem(
    bodies: Seq<BodyView>,
    types: Seq<TypeView>,
    start: int,
) -> Option<(nat, (nat, Option<nat>, InvalidInstructionKind))>
    decreases bodies.len() - start,
{
    if start < 0 || start >= bodies.len() {
        None
    } else {
        match spec_body_problem(bodies[start], types) {
            Some(problem) => Some((start as nat, problem)),
            None => spec_first_body_problem(bodies, types, start + 1),
        }
    }
}

/// The position of the first function definition, from position `start` on, whose signature index is not below
/// `signatures` or whose body index is not below `bodies`.
pub open spec fn spec_first_bad_definition(
    definitions: Seq<(usize, usize)>,
    signatures: nat,
    bodies: nat,
    start: int,
) -> Option<nat>
    decreases definitions.len() - start,
{
    if start < 0 || start >= definitions.len() {
        None
    } else if definitions[start].0 >= signatures || definitions[start].1 >= bodies {
        Some(start as nat)
    } else {
        spec_first_bad_definition(definitions, signatures, bodies, start + 1)
    }
}

/// The first check that the contents fail: the symbols must be distinct and assigned to function templates that exist,
/// function instantiations must instantiate templates that exist, function bodies must be valid, function definitions
/// must refer to signatures and bodies that exist, and there must be at most one entry point.
pub open spec fn spec_validation_failure(c: &ModuleContents) -> Option<ValidationFailure> {
    let entries = spec_all_entries(c.symbols@);
    let templates = c.function_templates@.len();
    if !spec_all_distinct(entries) {
        Some(ValidationFailure::DuplicateSymbol)
    } else if let Some(j) = spec_first_index_past(entries, templates, 0) {
        Some(ValidationFailure::SymbolTarget { symbol: j, index: entries[j as int].1 })
    } else if let Some(k) = spec_first_past(spec_views(c.function_instantiations@), templates, 0) {
        Some(ValidationFailure::InstantiationTemplate { instantiation: k, index: spec_views(c.function_instantiations@)[k as int] })
    } else if let Some((b, problem)) = spec_first_body_problem(spec_views(c.function_bodies@), spec_views(c.types@), 0) {
        Some(ValidationFailure::Body { body: b, problem })
    } else if let Some(d) = spec_first_bad_definition(
        spec_views(c.function_definitions@),
        c.function_signatures@.len(),
        c.function_bodies@.len(),
        0,
    ) {
        let definition = spec_views(c.function_definitions@)[d as int];
        if definition.0 >= c.function_signatures@.len() {
            Some(ValidationFailure::DefinitionSignature { definition: d, index: definition.0 })
        } else {
            Some(ValidationFailure::DefinitionBody { definition: d, index: definition.1 })
        }
    } else if c.entry_point@.len() > 1 {
        Some(ValidationFailure::TooManyEntryPoints { count: c.entry_point@.len() })
    } else {
        None
    }
}

/// Whether a validation error describes the first check that the contents fail.
pub open spec fn spec_error_describes(e: Error, f: ValidationFailure, c: &ModuleContents) -> bool {
    let templates = c.function_templates@.len();
    match f {
        ValidationFailure::DuplicateSymbol => e.kind matches ErrorKind::DuplicateSymbol(d)
            && spec_describes_first_duplicate(spec_all_entries(c.symbols@), d),
        ValidationFailure::SymbolTarget { symbol, index } => e.kind == ErrorKind::InvalidSymbolTarget {
            symbol: symbol as usize,
            error: spec_invalid_index(IndexKind::FunctionTemplate, index, templates),
        },
        ValidationFailure::InstantiationTemplate { instantiation, index } => e.kind
            == ErrorKind::InvalidInstantiation {
            instantiation: instantiation as usize,
            error: spec_invalid_index(IndexKind::FunctionTemplate, index, templates),
        },
        ValidationFailure::Body { body, problem } => e.kind matches ErrorKind::InvalidInstruction { body: b, error }
            && b == body && spec_describes_problem(error, spec_body_blocks(spec_views(c.function_bodies@)[body as int]), problem),
        ValidationFailure::DefinitionSignature { definition, index } => e.kind
            == ErrorKind::InvalidDefinitionSignature {
            definition: definition as usize,
            error: spec_invalid_index(IndexKind::FunctionSignature, index, c.function_signatures@.len()),
        },
        ValidationFailure::DefinitionBody { definition, index } => e.kind == ErrorKind::InvalidDefinitionBody {
            definition: definition as usize,
            error: spec_invalid_index(IndexKind::FunctionBody, index, c.function_bodies@.len()),
        },
        ValidationFailure::TooManyEntryPoints { count } => e.kind == ErrorKind::TooManyEntryPoints(count as usize),
    }
}

/// Represents a validated IL4IL module.
pub struct ValidModule {
    contents: ModuleContents,
    symbols: Lookup,
}

impl ValidModule {
    #[verifier::type_invariant]
    spec fn valid(&self) -> bool {
        spec_validation_failure(&self.contents) is None
    }

    /// The contents of the module, in specifications.
    pub closed spec fn spec_contents(&self) -> &ModuleContents {
        &self.contents
    }

    /// The symbols of the module, in specifications.
    pub closed spec fn spec_symbols(&self) -> Seq<SymbolEntry> {
        self.symbols@
    }

    /// The contents of the module, which pass every check.
    pub fn contents(&self) -> (r: &ModuleContents)
        ensures
            r == self.spec_contents(),
            spec_validation_failure(r) is None,
    {
        proof {
            use_type_invariant(self);
        }
        &self.contents
    }

    /// Associates the symbols of the module with the indices they are assigned to.
    pub fn symbol_lookup(&self) -> (r: &Lookup)
        ensures
            r@ == self.spec_symbols(),
    {
        &self.symbols
    }

    /// Returns the contents of the module.
    pub fn into_contents(self) -> (r: ModuleContents)
        ensures
            r == *self.spec_contents(),
            spec_validation_failure(&r) is None,
    {
        proof {
            use_type_invariant(&self);
        }
        self.contents
    }

    /// Takes the symbols of the module, leaving none in their place.
    pub fn take_symbols(&mut self) -> (r: Lookup)
        ensures
            r@ == old(self).spec_symbols(),
            final(self).spec_symbols() == Seq::<SymbolEntry>::empty(),
            final(self).spec_contents() == old(self).spec_contents(),
    {
        proof {
            use_type_invariant(&*self);
        }
        let mut symbols = Lookup::new();
        std::mem::swap(&mut symbols, &mut self.symbols);
        symbols
    }

    /// Creates a valid module with the given contents, which are known to pass every check, without checking them
    /// again; its symbol lookup is empty.
    pub fn from_contents_unchecked(contents: ModuleContents) -> (r: Self)
        requires
            spec_validation_failure(&contents) is None,
        ensures
            *r.spec_contents() == contents,
            r.spec_symbols() == Seq::<SymbolEntry>::empty(),
    {
        ValidModule { contents, symbols: Lookup::new() }
    }

    /// Validates the given module contents.
    #[verifier::spinoff_prover]
    pub fn from_module_contents(contents: ModuleContents) -> (r: Result<Self, Error>)
        ensures
            match spec_validation_failure(&contents) {
                None => r matches Ok(m) && *m.spec_contents() == contents && m.spec_symbols() == spec_all_entries(
                    contents.symbols@,
                ),
                Some(f) => r matches Err(e) && spec_error_describes(e, f, &contents),
            },
    {
        let symbols = match Lookup::from_assignments(contents.symbols.as_slice()) {
            Ok(symbols) => symbols,
            Err(e) => {
                return Err(Error::from_kind(ErrorKind::DuplicateSymbol(e)));
            },
        };
        let ghost entries = spec_all_entries(contents.symbols@);
        let templates = contents.function_templates.count();
        let lookup_entries = symbols.entries();
        let mut i: usize = 0;
        while i < lookup_entries.len()
            invariant
                i <= lookup_entries@.len(),
                lookup_entries@.len() == entries.len(),
                forall|j: int| 0 <= j < lookup_entries@.len() ==> crate::symbol::spec_entry_view(#[trigger] lookup_entries@[j]) == entries[j],
                entries == spec_all_entries(contents.symbols@),
                spec_all_distinct(entries),
                templates == contents.function_templates@.len(),
                spec_first_index_past(entries, templates as nat, 0) == spec_first_index_past(entries, templates as nat, i as int),
            decreases lookup_entries.len() - i,
        {
            let index = lookup_entries[i].index().number();
            assert(crate::symbol::spec_entry_view(lookup_entries@[i as int]) == entries[i as int]);
            if index >= templates {
                return Err(Error::from_kind(ErrorKind::InvalidSymbolTarget {
                    symbol: i,
                    error: InvalidIndexError::new(IndexKind::FunctionTemplate, index, templates),
                }));
            }
            i = i + 1;
        }
        let mut k: usize = 0;
        while k < contents.function_instantiations.len()
            invariant
                k <= contents.function_instantiations@.len(),
                templates == contents.function_templates@.len(),
                spec_all_distinct(spec_all_entries(contents.symbols@)),
                spec_first_index_past(spec_all_entries(contents.symbols@), templates as nat, 0) is None,
                spec_first_past(spec_views(contents.function_instantiations@), templates as nat, 0) == spec_first_past(
                    spec_views(contents.function_instantiations@),
                    templates as nat,
                    k as int,
                ),
            decreases contents.function_instantiations.len() - k,
        {
            let index = contents.function_instantiations[k].template.get();
            assert(spec_views(contents.function_instantiations@)[k as int] == index);
            if index >= templates {
                return Err(Error::from_kind(ErrorKind::InvalidInstantiation {
                    instantiation: k,
                    error: InvalidIndexError::new(IndexKind::FunctionTemplate, index, templates),
                }));
            }
            k = k + 1;
        }
        let mut b: usize = 0;
        while b < contents.function_bodies.len()
            invariant
                b <= contents.function_bodies@.len(),
                spec_all_distinct(spec_all_entries(contents.symbols@)),
                spec_first_index_past(spec_all_entries(contents.symbols@), contents.function_templates@.len(), 0) is None,
                spec_first_past(spec_views(contents.function_instantiations@), contents.function_templates@.len(), 0) is None,
                spec_first_body_problem(spec_views(contents.function_bodies@), spec_views(contents.types@), 0)
                    == spec_first_body_problem(spec_views(contents.function_bodies@), spec_views(contents.types@), b as int),
            decreases contents.function_bodies.len() - b,
        {
            assert(spec_views(contents.function_bodies@)[b as int] == contents.function_bodies@[b as int]@);
            match validate_body(&contents.function_bodies[b], contents.types.as_slice()) {
                Ok(()) => {},
                Err(error) => {
                    return Err(Error::from_kind(ErrorKind::InvalidInstruction { body: b, error }));
                },
            }
            b = b + 1;
        }
        let mut d: usize = 0;
        while d < contents.function_definitions.len()
            invariant
                d <= contents.function_definitions@.len(),
                spec_all_distinct(spec_all_entries(contents.symbols@)),
                spec_first_index_past(spec_all_entries(contents.symbols@), contents.function_templates@.len(), 0) is None,
                spec_first_past(spec_views(contents.function_instantiations@), contents.function_templates@.len(), 0) is None,
                spec_first_body_problem(spec_views(contents.function_bodies@), spec_views(contents.types@), 0) is None,
                spec_first_bad_definition(
                    spec_views(contents.function_definitions@),
                    contents.function_signatures@.len(),
                    contents.function_bodies@.len(),
                    0,
                ) == spec_first_bad_definition(
                    spec_views(contents.function_definitions@),
                    contents.function_signatures@.len(),
                    contents.function_bodies@.len(),
                    d as int,
                ),
            decreases contents.function_definitions.len() - d,
        {
            let definition = &contents.function_definitions[d];
            assert(spec_views(contents.function_definitions@)[d as int] == definition@);
            if let Err(error) = index_checker::get_function_signature(definition.signature, &contents) {
                return Err(Error::from_kind(ErrorKind::InvalidDefinitionSignature { definition: d, error }));
            }
            if let Err(error) = index_checker::get_function_body(definition.body, &contents) {
                return Err(Error::from_kind(ErrorKind::InvalidDefinitionBody { definition: d, error }));
            }
            d = d + 1;
        }
        if contents.entry_point.len() > 1 {
            return Err(Error::from_kind(ErrorKind::TooManyEntryPoints(contents.entry_point.len())));
        }
        Ok(ValidModule { contents, symbols })
    }

    /// Validates the contents of a module.
    pub fn from_module(module: Module) -> (r: Result<Self, Error>)
        ensures
            r is Ok ==> spec_validation_failure(r->Ok_0.spec_contents()) is None,
            exists|c: ModuleContents|
                #[trigger] contents::spec_holds_sections(&c, module@.sections) && match spec_validation_failure(&c) {
                    None => r matches Ok(m) && *m.spec_contents() == c && m.spec_symbols() == spec_all_entries(
                        c.symbols@,
                    ),
                    Some(f) => r matches Err(e) && spec_error_describes(e, f, &c),
                },
    {
        let contents = ModuleContents::from_module(module);
        let ghost c = contents;
        let r = Self::from_module_contents(contents);
        assert(contents::spec_holds_sections(&c, module@.sections));
        r
    }
}

} // verus!

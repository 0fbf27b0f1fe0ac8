//! Manipulation of IL4IL module symbols.
//!
//! Symbols are unique names assigned to the contents of an IL4IL module, such as its functions.
use vstd::prelude::*;
use crate::identifier::Identifier;
use crate::index;
use crate::index::IndexSpace;
use crate::text::debug_text;
use crate::text::spec_decimal;
use rustc_hash::{FxHashMap, FxHasher};
use std::hash::BuildHasherDefault;

verus! {

/// Indicates whether the symbol is accessible outside of the containing module.
#[derive(Clone, Copy, Debug, PartialEq, Eq, Structural, Hash)]
pub enum Kind {
    Private,
    Export,
}

/// The byte that a symbol kind is written as.
pub open spec fn spec_kind_byte(kind: Kind) -> u8 {
    match kind {
        Kind::Private => 0,
        Kind::Export => 1,
    }
}

impl Kind {
    /// Gets the symbol kind written as the given byte.
    pub fn new(value: u8) -> (r: Option<Self>)
        ensures
            r matches Some(k) ==> spec_kind_byte(k) == value,
            r is None ==> forall|k: Kind| spec_kind_byte(k) != value,
    {
        if value == 0 {
            Some(Kind::Private)
        } else if value == 1 {
            Some(Kind::Export)
        } else {
            None
        }
    }

    /// The byte that this symbol kind is written as.
    pub fn to_u8(self) -> (r: u8)
        ensures
            r == spec_kind_byte(self),
    {
        match self {
            Kind::Private => 0,
            Kind::Export => 1,
        }
    }
}

/// Represents the set of all things that can be assigned a symbol within a module.
#[derive(Clone, Copy, Debug, PartialEq, Eq, Structural, Hash)]
pub enum TargetKind {
    FunctionTemplate,
}

/// The byte that a symbol target kind is written as.
pub open spec fn spec_target_kind_byte(kind: TargetKind) -> u8 {
    match kind {
        TargetKind::FunctionTemplate => 1,
    }
}

/// Represents an index to content within a module that is capable of having a symbol.
#[derive(Clone, Copy, Debug, PartialEq, Eq)]
pub enum TargetIndex {
    FunctionTemplate(index::FunctionTemplate),
}

/// The number of the index that a symbol target refers to.
pub open spec fn spec_target_number(target: TargetIndex) -> usize {
    match target {
        TargetIndex::FunctionTemplate(index) => index@,
    }
}

impl TargetIndex {
    /// The number of the index that this symbol target refers to.
    pub fn number(self) -> (r: usize)
        ensures
            r == spec_target_number(self),
    {
        match self {
            TargetIndex::FunctionTemplate(index) => index.get(),
        }
    }
}

/// The text of a symbol target: the name of its kind of content, `#`, and its number.
pub open spec fn spec_target_text(target: TargetIndex) -> Seq<char> {
    match target {
        TargetIndex::FunctionTemplate(i) => index::FunctionTemplateSpace::spec_name() + seq![' ', '#'] + spec_decimal(
            i@ as nat,
        ),
    }
}

impl TargetIndex {
    /// The text of the symbol target.
    pub fn to_text(self) -> (r: String)
        ensures
            r@ == spec_target_text(self),
    {
        match self {
            TargetIndex::FunctionTemplate(i) => i.describe(),
        }
    }
}

impl TargetKind {
    /// Gets the symbol target kind written as the given byte.
    pub fn new(value: u8) -> (r: Option<Self>)
        ensures
            r matches Some(k) ==> spec_target_kind_byte(k) == value,
            r is None ==> forall|k: TargetKind| spec_target_kind_byte(k) != value,
    {
        if value == 1 {
            Some(TargetKind::FunctionTemplate)
        } else {
            None
        }
    }

    /// The byte that this symbol target kind is written as.
    pub fn to_u8(self) -> (r: u8)
        ensures
            r == spec_target_kind_byte(self),
    {
        match self {
            TargetKind::FunctionTemplate => 1,
        }
    }

    /// Creates an index to the target of this kind with the given number.
    pub fn create_index(self, index: usize) -> (r: TargetIndex)
        ensures
            spec_target_number(r) == index,
    {
        match self {
            TargetKind::FunctionTemplate => TargetIndex::FunctionTemplate(index::Index::new(index)),
        }
    }
}

/// Assigns symbol names to indices to content within a module.
#[derive(Clone, Debug, PartialEq, Eq)]
pub struct Assignment {
    /// The names and the indices that they are assigned to.
    pub symbols: Vec<(Identifier, usize)>,
    pub symbol_kind: Kind,
    pub target_kind: TargetKind,
}

impl Assignment {
    /// Creates an assignment with no symbols.
    pub fn new(symbol_kind: Kind, target_kind: TargetKind) -> (r: Self)
        ensures
            r.symbols@.len() == 0,
            r.symbol_kind == symbol_kind,
            r.target_kind == target_kind,
    {
        Self { symbols: Vec::new(), symbol_kind, target_kind }
    }

    /// Whether the symbols are accessible outside of the module.
    pub fn symbol_kind(&self) -> (r: Kind)
        ensures
            r == self.symbol_kind,
    {
        self.symbol_kind
    }

    /// The kind of content that the symbols are assigned to.
    pub fn target_kind(&self) -> (r: TargetKind)
        ensures
            r == self.target_kind,
    {
        self.target_kind
    }
}

/// A name assigned to content within a module, along with whether it is accessible outside of the module.
#[derive(Clone, Debug, PartialEq, Eq)]
pub struct Symbol {
    kind: Kind,
    name: Identifier,
}

impl Symbol {
    /// The kind of the symbol, in specifications.
    pub closed spec fn spec_kind(&self) -> Kind {
        self.kind
    }

    /// The name of the symbol, in specifications.
    pub closed spec fn spec_name(&self) -> Seq<char> {
        self.name@
    }

    /// Creates a symbol.
    pub fn new(kind: Kind, name: Identifier) -> (r: Self)
        ensures
            r.spec_kind() == kind,
            r.spec_name() == name@,
    {
        Symbol { kind, name }
    }

    /// Whether the symbol is accessible outside of the module.
    pub fn kind(&self) -> (r: Kind)
        ensures
            r == self.spec_kind(),
    {
        self.kind
    }

    /// The name of the symbol.
    pub fn name(&self) -> (r: &Identifier)
        ensures
            r@ == self.spec_name(),
    {
        &self.name
    }

    /// Returns the name of the symbol.
    pub fn into_name(self) -> (r: Identifier)
        ensures
            r@ == self.spec_name(),
    {
        self.name
    }
}

/// Indicates why a symbol could not be added to a [`Lookup`].
#[derive(Clone, Debug, PartialEq, Eq)]
pub enum DuplicateSymbolKind {
    /// The symbol is already assigned to the given index.
    ExistingIndex(TargetIndex),
    /// The index is already assigned the given symbol.
    ExistingSymbol(Identifier),
}

/// Error type used when an attempt to add a symbol to a [`Lookup`] would result in a symbol corresponding to more than one index, or an
/// index being associated with more than one symbol.
#[derive(Clone, Debug, PartialEq, Eq)]
pub struct DuplicateSymbolError {
    pub symbol: Identifier,
    pub index: TargetIndex,
    pub kind: DuplicateSymbolKind,
}

/// The message of a reason why a symbol could not be added.
pub open spec fn spec_duplicate_kind_text(kind: DuplicateSymbolKind) -> Seq<char> {
    match kind {
        DuplicateSymbolKind::ExistingIndex(t) => "symbol is already assigned to "@ + spec_target_text(t),
        DuplicateSymbolKind::ExistingSymbol(s) => "index already assigned the symbol "@ + debug_text(s@),
    }
}

impl DuplicateSymbolKind {
    /// The message describing why the symbol could not be added.
    pub fn message(&self) -> (r: String)
        ensures
            r@ == spec_duplicate_kind_text(*self),
    {
        let mut r = String::new();
        match self {
            DuplicateSymbolKind::ExistingIndex(t) => {
                crate::text::push_str(&mut r, "symbol is already assigned to ");
                let text = t.to_text();
                crate::text::push_str(&mut r, text.as_str());
            },
            DuplicateSymbolKind::ExistingSymbol(s) => {
                crate::text::push_str(&mut r, "index already assigned the symbol ");
                let text = crate::text::debug_quote(s.as_str());
                crate::text::push_str(&mut r, text.as_str());
            },
        }
        assert(r@ =~= spec_duplicate_kind_text(*self));
        r
    }
}

impl DuplicateSymbolError {
    /// The message describing the error: the index, the symbol, and why the symbol could not be added.
    pub fn message(&self) -> (r: String)
        ensures
            r@ == "attempt to assign index "@ + spec_target_text(self.index) + " the symbol "@ + debug_text(
                self.symbol@,
            ) + ", but "@ + spec_duplicate_kind_text(self.kind),
    {
        let index = self.index.to_text();
        let symbol = crate::text::debug_quote(self.symbol.as_str());
        let mut r = crate::text::concat3("attempt to assign index ", index.as_str(), " the symbol ");
        crate::text::push_str(&mut r, symbol.as_str());
        crate::text::push_str(&mut r, ", but ");
        let kind = self.kind.message();
        crate::text::push_str(&mut r, kind.as_str());
        r
    }

    fn new(symbol: Identifier, index: TargetIndex, kind: DuplicateSymbolKind) -> (r: Self)
        ensures
            r.symbol@ == symbol@,
            r.index == index,
            r.kind == kind,
    {
        Self { symbol, index, kind }
    }

    /// Why the symbol could not be added.
    pub fn kind(&self) -> (r: &DuplicateSymbolKind)
        ensures
            *r == self.kind,
    {
        &self.kind
    }
}

/// An entry of a [`Lookup`], associating a symbol with an index.
#[derive(Clone, Debug, PartialEq, Eq)]
pub struct LookupEntry {
    pub index: TargetIndex,
    pub name: Identifier,
    pub kind: Kind,
}

impl LookupEntry {
    /// The index that the symbol is assigned to.
    pub fn index(&self) -> (r: TargetIndex)
        ensures
            r == self.index,
    {
        self.index
    }

    /// The name of the symbol.
    pub fn name(&self) -> (r: &Identifier)
        ensures
            r@ == self.name@,
    {
        &self.name
    }

    /// Whether the symbol is accessible outside of the module.
    pub fn kind(&self) -> (r: Kind)
        ensures
            r == self.kind,
    {
        self.kind
    }
}

/// A symbol as the name, the number of the index it is assigned to, and whether it is exported.
pub type SymbolEntry = (Seq<char>, usize, Kind);

/// The symbols of one assignment, in order.
pub open spec fn spec_assignment_entries(a: Assignment) -> Seq<SymbolEntry> {
    Seq::new(a.symbols@.len(), |i: int| (a.symbols@[i].0@, a.symbols@[i].1, a.symbol_kind))
}

/// The symbols of a sequence of assignments, in order.
pub open spec fn spec_all_entries(assignments: Seq<Assignment>) -> Seq<SymbolEntry>
    decreases assignments.len(),
{
    if assignments.len() == 0 {
        Seq::empty()
    } else {
        spec_all_entries(assignments.drop_last()) + spec_assignment_entries(assignments.last())
    }
}

/// Whether the symbol at position `j` has the same name or index as an earlier symbol.
pub open spec fn spec_is_duplicate(entries: Seq<SymbolEntry>, j: int) -> bool {
    exists|i: int| 0 <= i < j && (entries[i].0 == entries[j].0 || entries[i].1 == entries[j].1)
}

/// Whether no two symbols share a name or an index.
pub open spec fn spec_all_distinct(entries: Seq<SymbolEntry>) -> bool {
    forall|j: int| 0 <= j < entries.len() ==> !spec_is_duplicate(entries, j)
}

/// The view of a lookup entry.
pub open spec fn spec_entry_view(e: LookupEntry) -> SymbolEntry {
    (e.name@, spec_target_number(e.index), e.kind)
}

/// Maps symbol names to the positions of their entries.
pub type NameMap = FxHashMap<String, usize>;

/// Maps index numbers to the positions of their entries.
pub type IndexMap = FxHashMap<usize, usize>;

/// Names the map from symbol names to entry positions, held in an [`FxHashMap`] whose keys are strings.
pub uninterp spec fn fx_name_map(m: NameMap) -> Map<Seq<char>, usize>;

/// Names the map from index numbers to entry positions, held in an [`FxHashMap`] whose keys are index numbers.
pub uninterp spec fn fx_index_map(m: IndexMap) -> Map<usize, usize>;

/// The hasher of [`FxHashMap`].
#[verifier::external_type_specification]
#[verifier::external_body]
pub struct ExFxHasher(FxHasher);

/// Builds default hashers.
#[verifier::external_type_specification]
#[verifier::external_body]
#[verifier::reject_recursive_types(H)]
pub struct ExBuildHasherDefault<H>(BuildHasherDefault<H>);

/// Creates an empty [`FxHashMap`] keyed by strings, through `HashMap::with_capacity_and_hasher`; its contents are empty.
#[verifier::external_body]
fn name_map_with_capacity(capacity: usize) -> (r: NameMap)
    ensures
        fx_name_map(r).dom() == Set::<Seq<char>>::empty(),
{
    FxHashMap::with_capacity_and_hasher(capacity, Default::default())
}

/// Looks a string key up in an [`FxHashMap`], through `HashMap::get`; gives the value stored for the key, if any.
#[verifier::external_body]
fn name_map_get(m: &NameMap, key: &str) -> (r: Option<usize>)
    ensures
        fx_name_map(*m).contains_key(key@) ==> r == Some(fx_name_map(*m)[key@]),
        !fx_name_map(*m).contains_key(key@) ==> r is None,
{
    m.get(key).copied()
}

/// Stores a value for a string key in an [`FxHashMap`], through `HashMap::insert`; the key then maps to the value and
/// every other key is unchanged.
#[verifier::external_body]
fn name_map_insert(m: &mut NameMap, key: String, value: usize)
    ensures
        fx_name_map(*final(m)) == fx_name_map(*old(m)).insert(key@, value),
{
    m.insert(key, value);
}

/// Creates an empty [`FxHashMap`] keyed by index numbers, through `HashMap::with_capacity_and_hasher`; its contents are
/// empty.
#[verifier::external_body]
fn index_map_with_capacity(capacity: usize) -> (r: IndexMap)
    ensures
        fx_index_map(r).dom() == Set::<usize>::empty(),
{
    FxHashMap::with_capacity_and_hasher(capacity, Default::default())
}

/// Looks an index number up in an [`FxHashMap`], through `HashMap::get`; gives the value stored for the key, if any.
#[verifier::external_body]
fn index_map_get(m: &IndexMap, key: usize) -> (r: Option<usize>)
    ensures
        fx_index_map(*m).contains_key(key) ==> r == Some(fx_index_map(*m)[key]),
        !fx_index_map(*m).contains_key(key) ==> r is None,
{
    m.get(&key).copied()
}

/// Stores a value for an index number in an [`FxHashMap`], through `HashMap::insert`; the key then maps to the value and
/// every other key is unchanged.
#[verifier::external_body]
fn index_map_insert(m: &mut IndexMap, key: usize, value: usize)
    ensures
        fx_index_map(*final(m)) == fx_index_map(*old(m)).insert(key, value),
{
    m.insert(key, value);
}

/// Associates symbols with the indices they are assigned to, allowing lookup in both directions.
pub struct Lookup {
    entries: Vec<LookupEntry>,
    index_lookup: NameMap,
    name_lookup: IndexMap,
}

impl View for Lookup {
    type V = Seq<SymbolEntry>;

    closed spec fn view(&self) -> Seq<SymbolEntry> {
        Seq::new(self.entries@.len(), |i: int| spec_entry_view(self.entries@[i]))
    }
}

/// Whether the position maps of a lookup agree with its entries.
pub open spec fn spec_maps_agree(
    entries: Seq<SymbolEntry>,
    names: Map<Seq<char>, usize>,
    indices: Map<usize, usize>,
) -> bool {
    &&& forall|k: Seq<char>| #[trigger]
        names.contains_key(k) <==> exists|i: int| 0 <= i < entries.len() && entries[i].0 == k
    &&& forall|k: Seq<char>| #[trigger]
        names.contains_key(k) ==> names[k] < entries.len() && entries[names[k] as int].0 == k
    &&& forall|k: usize| #[trigger]
        indices.contains_key(k) <==> exists|i: int| 0 <= i < entries.len() && entries[i].1 == k
    &&& forall|k: usize| #[trigger]
        indices.contains_key(k) ==> indices[k] < entries.len() && entries[indices[k] as int].1 == k
}

/// Whether an error describes the first symbol that has the same name or index as an earlier symbol: the error gives the
/// symbol's name and index, and either the index that an earlier symbol with the same name is assigned, or, when no
/// earlier symbol has the same name, the name of the earlier symbol with the same index.
pub open spec fn spec_describes_first_duplicate(all: Seq<SymbolEntry>, e: DuplicateSymbolError) -> bool {
    exists|j: int|
        0 <= j < all.len() && spec_is_duplicate(all, j) && spec_all_distinct(all.take(j)) && e.symbol@ == all[j].0
            && spec_target_number(e.index) == all[j].1 && #[trigger] spec_duplicate_kind_matches(all, j, e.kind)
}

/// Whether the kind of a duplicate symbol error agrees with the earlier symbols, for the symbol at position `j`.
pub open spec fn spec_duplicate_kind_matches(all: Seq<SymbolEntry>, j: int, kind: DuplicateSymbolKind) -> bool {
    match kind {
        DuplicateSymbolKind::ExistingIndex(t) => exists|i: int|
            0 <= i < j && all[i].0 == all[j].0 && spec_target_number(t) == all[i].1,
        DuplicateSymbolKind::ExistingSymbol(n) => (forall|i: int| 0 <= i < j ==> all[i].0 != all[j].0) && exists|i: int|
            0 <= i < j && all[i].1 == all[j].1 && n@ == all[i].0,
    }
}

impl Lookup {
    #[verifier::type_invariant]
    spec fn valid(&self) -> bool {
        &&& spec_all_distinct(self@)
        &&& spec_maps_agree(self@, fx_name_map(self.index_lookup), fx_index_map(self.name_lookup))
    }

    /// Creates a lookup with no symbols.
    pub fn new() -> (r: Self)
        ensures
            r@ == Seq::<SymbolEntry>::empty(),
    {
        let r = Lookup {
            entries: Vec::new(),
            index_lookup: name_map_with_capacity(0),
            name_lookup: index_map_with_capacity(0),
        };
        assert(r@ =~= Seq::<SymbolEntry>::empty());
        r
    }

    /// Builds a lookup from the symbols of the assignments, in order, failing at the first symbol whose name or index
    /// was already used by an earlier symbol.
    #[verifier::spinoff_prover]
    pub fn from_assignments(assignments: &[Assignment]) -> (r: Result<Self, DuplicateSymbolError>)
        ensures
            match r {
                Ok(lookup) => spec_all_distinct(spec_all_entries(assignments@)) && lookup@ == spec_all_entries(
                    assignments@,
                ),
                Err(e) => spec_describes_first_duplicate(spec_all_entries(assignments@), e),
            },
    {
        let mut entries: Vec<LookupEntry> = Vec::new();
        let mut index_lookup = name_map_with_capacity(assignments.len());
        let mut name_lookup = index_map_with_capacity(assignments.len());
        let mut a: usize = 0;
        while a < assignments.len()
            invariant
                a <= assignments@.len(),
                ({
                    let view = Seq::new(entries@.len(), |i: int| spec_entry_view(entries@[i]));
                    &&& view == spec_all_entries(assignments@.take(a as int))
                    &&& spec_all_distinct(view)
                    &&& spec_maps_agree(view, fx_name_map(index_lookup), fx_index_map(name_lookup))
                }),
            decreases assignments@.len() - a,
        {
            let assignment = &assignments[a];
            let symbol_kind = assignment.symbol_kind();
            let target_kind = assignment.target_kind();
            let ghost before = Seq::new(entries@.len(), |i: int| spec_entry_view(entries@[i]));
            let mut s: usize = 0;
            while s < assignment.symbols.len()
                invariant
                    a < assignments@.len(),
                    *assignment == assignments@[a as int],
                    symbol_kind == assignment.symbol_kind,
                    target_kind == assignment.target_kind,
                    s <= assignment.symbols@.len(),
                    before == spec_all_entries(assignments@.take(a as int)),
                    ({
                        let view = Seq::new(entries@.len(), |i: int| spec_entry_view(entries@[i]));
                        &&& view == before + spec_assignment_entries(*assignment).take(s as int)
                        &&& spec_all_distinct(view)
                        &&& spec_maps_agree(view, fx_name_map(index_lookup), fx_index_map(name_lookup))
                    }),
                decreases assignment.symbols@.len() - s,
            {
                let ghost view = Seq::new(entries@.len(), |i: int| spec_entry_view(entries@[i]));
                let ghost all = spec_all_entries(assignments@);
                proof {
                    lemma_all_entries_prefix(assignments@, a as int, s as int);
                }
                let name = &assignment.symbols[s].0;
                let number = assignment.symbols[s].1;
                let entry_index = entries.len();
                let target_index = target_kind.create_index(number);
                match name_map_get(&index_lookup, name.as_str()) {
                    Some(existing) => {
                        let existing_index = entries[existing].index;
                        proof {
                            let j = view.len() as int;
                            assert(all.take(j) =~= view);
                            assert(all[j] == (name@, number, symbol_kind));
                            assert(view[existing as int] == spec_entry_view(entries@[existing as int]));
                            assert(all[existing as int] == view[existing as int]);
                            assert(spec_is_duplicate(all, j));
                            assert(spec_duplicate_kind_matches(all, j, DuplicateSymbolKind::ExistingIndex(existing_index)));
                        }
                        return Err(
                            DuplicateSymbolError::new(
                                name.clone(),
                                target_index,
                                DuplicateSymbolKind::ExistingIndex(existing_index),
                            ),
                        );
                    },
                    None => {},
                }
                match index_map_get(&name_lookup, number) {
                    Some(existing) => {
                        let existing_name = entries[existing].name.clone();
                        proof {
                            let j = view.len() as int;
                            assert(all.take(j) =~= view);
                            assert(all[j] == (name@, number, symbol_kind));
                            assert(view[existing as int] == spec_entry_view(entries@[existing as int]));
                            assert(all[existing as int] == view[existing as int]);
                            assert(spec_is_duplicate(all, j));
                            assert forall|i: int| 0 <= i < view.len() implies #[trigger] all[i].0 != all[view.len() as int].0 by {
                                if all[i].0 == all[view.len() as int].0 {
                                    assert(view[i].0 == name@);
                                }
                            }
                            assert(spec_duplicate_kind_matches(all, j, DuplicateSymbolKind::ExistingSymbol(existing_name)));
                        }
                        return Err(
                            DuplicateSymbolError::new(
                                name.clone(),
                                target_index,
                                DuplicateSymbolKind::ExistingSymbol(existing_name),
                            ),
                        );
                    },
                    None => {},
                }
                let ghost names0 = fx_name_map(index_lookup);
                let ghost indices0 = fx_index_map(name_lookup);
                name_map_insert(&mut index_lookup, name.as_string().clone(), entry_index);
                index_map_insert(&mut name_lookup, number, entry_index);
                entries.push(LookupEntry { index: target_index, name: name.clone(), kind: symbol_kind });
                proof {
                    let new_view = Seq::new(entries@.len(), |i: int| spec_entry_view(entries@[i]));
                    assert(new_view =~= view.push((name@, number, symbol_kind)));
                    assert(spec_assignment_entries(*assignment).take(s + 1) =~= spec_assignment_entries(
                        *assignment,
                    ).take(s as int).push((name@, number, symbol_kind)));
                    assert(new_view == before + spec_assignment_entries(*assignment).take(s + 1));
                    assert forall|j: int| 0 <= j < new_view.len() implies !spec_is_duplicate(new_view, j) by {
                        if j < view.len() {
                            assert(!spec_is_duplicate(view, j));
                            if spec_is_duplicate(new_view, j) {
                                let i = choose|i: int|
                                    0 <= i < j && (new_view[i].0 == new_view[j].0 || new_view[i].1 == new_view[j].1);
                                assert(view[i] == new_view[i] && view[j] == new_view[j]);
                            }
                        } else {
                            if spec_is_duplicate(new_view, j) {
                                let i = choose|i: int|
                                    0 <= i < j && (new_view[i].0 == new_view[j].0 || new_view[i].1 == new_view[j].1);
                                assert(new_view[i] == view[i]);
                                assert(new_view[j] == (name@, number, symbol_kind));
                                if view[i].0 == name@ {
                                    assert(names0.contains_key(name@));
                                } else {
                                    assert(indices0.contains_key(number));
                                }
                            }
                        }
                    }
                    lemma_maps_push(view, names0, indices0, name@, number, symbol_kind);
                }
                s = s + 1;
            }
            proof {
                assert(spec_assignment_entries(*assignment).take(s as int) =~= spec_assignment_entries(*assignment));
                assert(assignments@.take(a + 1).drop_last() =~= assignments@.take(a as int));
                assert(assignments@.take(a + 1).last() == assignments@[a as int]);
            }
            a = a + 1;
        }
        proof {
            assert(assignments@.take(a as int) =~= assignments@);
        }
        Ok(Lookup { entries, index_lookup, name_lookup })
    }

    /// Gets the entry of the symbol with the given name.
    pub fn get_index(&self, symbol: &str) -> (r: Option<&LookupEntry>)
        ensures
            match r {
                Some(e) => exists|i: int| 0 <= i < self@.len() && self@[i] == spec_entry_view(*e) && e.name@ == symbol@,
                None => forall|i: int| 0 <= i < self@.len() ==> self@[i].0 != symbol@,
            },
    {
        proof {
            use_type_invariant(self);
        }
        match name_map_get(&self.index_lookup, symbol) {
            Some(position) => {
                let e = &self.entries[position];
                assert(self@[position as int] == spec_entry_view(*e));
                Some(e)
            },
            None => {
                assert forall|i: int| 0 <= i < self@.len() implies self@[i].0 != symbol@ by {
                    if self@[i].0 == symbol@ {
                        assert(fx_name_map(self.index_lookup).contains_key(symbol@));
                    }
                }
                None
            },
        }
    }

    /// Gets the symbol corresponding to the specified index, or `None` if a symbol was not defined for this index.
    pub fn get_symbol(&self, index: TargetIndex) -> (r: Option<&LookupEntry>)
        ensures
            match r {
                Some(e) => exists|i: int|
                    0 <= i < self@.len() && self@[i] == spec_entry_view(*e) && spec_target_number(e.index)
                        == spec_target_number(index),
                None => forall|i: int| 0 <= i < self@.len() ==> self@[i].1 != spec_target_number(index),
            },
    {
        proof {
            use_type_invariant(self);
        }
        let key = index.number();
        match index_map_get(&self.name_lookup, key) {
            Some(position) => {
                let e = &self.entries[position];
                assert(self@[position as int] == spec_entry_view(*e));
                Some(e)
            },
            None => {
                assert forall|i: int| 0 <= i < self@.len() implies self@[i].1 != key by {
                    if self@[i].1 == key {
                        assert(fx_index_map(self.name_lookup).contains_key(key));
                    }
                }
                None
            },
        }
    }

    /// The entries, in the order in which the symbols were assigned.
    pub fn entries(&self) -> (r: &Vec<LookupEntry>)
        ensures
            r@.len() == self@.len(),
            forall|i: int| 0 <= i < r@.len() ==> spec_entry_view(r@[i]) == self@[i],
    {
        &self.entries
    }
}

/// The symbols of the first `a` assignments, followed by the first `s` symbols of the next one, start the symbols of
/// all the assignments.
proof fn lemma_all_entries_prefix(assignments: Seq<Assignment>, a: int, s: int)
    requires
        0 <= a < assignments.len(),
        0 <= s < assignments[a].symbols@.len(),
    ensures
        ({
            let all = spec_all_entries(assignments);
            let prefix = spec_all_entries(assignments.take(a)) + spec_assignment_entries(assignments[a]).take(s);
            &&& prefix.len() < all.len()
            &&& all.take(prefix.len() as int) == prefix
            &&& all[prefix.len() as int] == spec_assignment_entries(assignments[a])[s]
        }),
    decreases assignments.len(),
{
    let all = spec_all_entries(assignments);
    let n = assignments.len() - 1;
    if a == n {
        assert(assignments.take(a) =~= assignments.drop_last());
        let prefix = spec_all_entries(assignments.take(a)) + spec_assignment_entries(assignments[a]).take(s);
        assert(all.take(prefix.len() as int) =~= prefix);
    } else {
        let rest = assignments.drop_last();
        assert(rest.take(a) =~= assignments.take(a));
        assert(rest[a] == assignments[a]);
        lemma_all_entries_prefix(rest, a, s);
        let prefix = spec_all_entries(assignments.take(a)) + spec_assignment_entries(assignments[a]).take(s);
        let inner = spec_all_entries(rest);
        assert(all == inner + spec_assignment_entries(assignments.last()));
        assert(all.take(prefix.len() as int) =~= inner.take(prefix.len() as int));
    }
}

/// Adding a symbol whose name and index are new keeps the position maps in agreement with the entries.
proof fn lemma_maps_push(
    view: Seq<SymbolEntry>,
    names: Map<Seq<char>, usize>,
    indices: Map<usize, usize>,
    name: Seq<char>,
    number: usize,
    kind: Kind,
)
    requires
        spec_maps_agree(view, names, indices),
        !names.contains_key(name),
        !indices.contains_key(number),
        view.len() <= usize::MAX,
    ensures
        spec_maps_agree(
            view.push((name, number, kind)),
            names.insert(name, view.len() as usize),
            indices.insert(number, view.len() as usize),
        ),
{
    let nv = view.push((name, number, kind));
    let nn = names.insert(name, view.len() as usize);
    let ni = indices.insert(number, view.len() as usize);
    assert forall|k: Seq<char>| #[trigger] nn.contains_key(k) implies exists|i: int|
        0 <= i < nv.len() && nv[i].0 == k by {
        if k == name {
            assert(nv[view.len() as int].0 == k);
        } else {
            let i = choose|i: int| 0 <= i < view.len() && view[i].0 == k;
            assert(nv[i] == view[i]);
        }
    }
    assert forall|k: Seq<char>| (exists|i: int| 0 <= i < nv.len() && nv[i].0 == k) implies #[trigger] nn.contains_key(k) by {
        let i = choose|i: int| 0 <= i < nv.len() && nv[i].0 == k;
        if i < view.len() {
            assert(nv[i] == view[i]);
        }
    }
    assert forall|k: usize| #[trigger] ni.contains_key(k) implies exists|i: int|
        0 <= i < nv.len() && nv[i].1 == k by {
        if k == number {
            assert(nv[view.len() as int].1 == k);
        } else {
            let i = choose|i: int| 0 <= i < view.len() && view[i].1 == k;
            assert(nv[i] == view[i]);
        }
    }
    assert forall|k: usize| (exists|i: int| 0 <= i < nv.len() && nv[i].1 == k) implies #[trigger] ni.contains_key(k) by {
        let i = choose|i: int| 0 <= i < nv.len() && nv[i].1 == k;
        if i < view.len() {
            assert(nv[i] == view[i]);
        }
    }
    assert forall|k: Seq<char>| #[trigger] nn.contains_key(k) implies nn[k] < nv.len() && nv[nn[k] as int].0 == k by {
        if k != name {
            assert(nv[names[k] as int] == view[names[k] as int]);
        }
    }
    assert forall|k: usize| #[trigger] ni.contains_key(k) implies ni[k] < nv.len() && nv[ni[k] as int].1 == k by {
        if k != number {
            assert(nv[indices[k] as int] == view[indices[k] as int]);
        }
    }
}

/// A symbol assignment, in specifications.
pub struct AssignmentView {
    pub symbols: Seq<(Seq<char>, usize)>,
    pub symbol_kind: Kind,
    pub target_kind: TargetKind,
}

impl View for Assignment {
    type V = AssignmentView;

    open spec fn view(&self) -> AssignmentView {
        AssignmentView {
            symbols: crate::binary::parser::spec_views(self.symbols@),
            symbol_kind: self.symbol_kind,
            target_kind: self.target_kind,
        }
    }
}

} // verus!

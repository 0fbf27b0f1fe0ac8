//! Manipulation of IL4IL functions.
use vstd::prelude::*;
use crate::identifier::Identifier;
use crate::index;
use crate::instruction;
use crate::type_system;

verus! {

/// A function body consists of a list of basic blocks and specifies the types of all inputs, temporary registers, and results.
#[derive(Clone, Debug, PartialEq, Eq)]
pub struct Body {
    result_types: Vec<type_system::Reference>,
    entry_block: instruction::Block,
    other_blocks: Vec<instruction::Block>,
}

impl Body {
    /// The types of the values returned by the function, in specifications.
    pub closed spec fn spec_result_types(&self) -> Seq<type_system::Reference> {
        self.result_types@
    }

    /// The entry block, in specifications.
    pub closed spec fn spec_entry_block(&self) -> instruction::Block {
        self.entry_block
    }

    /// The blocks other than the entry block, in specifications.
    pub closed spec fn spec_other_blocks(&self) -> Seq<instruction::Block> {
        self.other_blocks@
    }

    /// All blocks of the body, starting with the entry block.
    pub open spec fn spec_blocks(&self) -> Seq<instruction::Block> {
        seq![self.spec_entry_block()] + self.spec_other_blocks()
    }

    /// Creates a function body from its result types, entry block, and other blocks.
    pub fn new(
        result_types: Vec<type_system::Reference>,
        entry_block: instruction::Block,
        other_blocks: Vec<instruction::Block>,
    ) -> (r: Self)
        ensures
            r.spec_result_types() == result_types@,
            r.spec_entry_block() == entry_block,
            r.spec_other_blocks() == other_blocks@,
    {
        Self { result_types, entry_block, other_blocks }
    }

    /// The types of the values returned by the function.
    pub fn result_types(&self) -> (r: &Vec<type_system::Reference>)
        ensures
            r@ == self.spec_result_types(),
    {
        &self.result_types
    }

    /// The block where execution of the function starts.
    pub fn entry_block(&self) -> (r: &instruction::Block)
        ensures
            *r == self.spec_entry_block(),
    {
        &self.entry_block
    }

    /// The blocks other than the entry block.
    pub fn other_blocks(&self) -> (r: &Vec<instruction::Block>)
        ensures
            r@ == self.spec_other_blocks(),
    {
        &self.other_blocks
    }

    /// Gets the block at the given index, where `0` is the entry block.
    pub fn get_block(&self, index: usize) -> (r: &instruction::Block)
        requires
            index < self.spec_blocks().len(),
        ensures
            *r == self.spec_blocks()[index as int],
    {
        if index == 0 {
            &self.entry_block
        } else {
            &self.other_blocks[index - 1]
        }
    }

    /// Lists the blocks of the body, starting with the entry block.
    pub fn iter_blocks(&self) -> (r: Vec<&instruction::Block>)
        ensures
            r@.len() == self.spec_blocks().len(),
            forall|i: int| 0 <= i < r@.len() ==> *r@[i] == self.spec_blocks()[i],
    {
        let mut blocks = Vec::new();
        blocks.push(&self.entry_block);
        let mut i: usize = 0;
        while i < self.other_blocks.len()
            invariant
                i <= self.other_blocks@.len(),
                blocks@.len() == i + 1,
                forall|j: int| 0 <= j < blocks@.len() ==> *blocks@[j] == self.spec_blocks()[j],
            decreases self.other_blocks@.len() - i,
        {
            blocks.push(&self.other_blocks[i]);
            i = i + 1;
        }
        blocks
    }
}


/// Function definitions associate an IL4IL function body with a [`Signature`].
#[derive(Clone, Copy, Debug, PartialEq, Eq)]
pub struct Definition {
    /// An index to the function signature indicating the parameters and results of this function definition.
    pub signature: index::FunctionSignature,
    /// An index to the function body.
    pub body: index::FunctionBody,
}

impl Definition {
    /// Creates a function definition.
    pub fn new(signature: index::FunctionSignature, body: index::FunctionBody) -> (r: Self)
        ensures
            r.signature@ == signature@,
            r.body@ == body@,
    {
        Self { signature, body }
    }
}

/// Function signatures specify the parameter types and result types of functions.
#[derive(Debug, PartialEq, Eq)]
pub struct Signature {
    types: Vec<type_system::Reference>,
    result_type_count: usize,
}

impl Clone for Signature {
    fn clone(&self) -> (r: Self)
        ensures
            r.spec_types() == self.spec_types(),
            r.spec_result_type_count() == self.spec_result_type_count(),
    {
        proof {
            use_type_invariant(self);
        }
        let types = self.types.clone();
        assert(types@ =~= self.types@);
        Signature { types, result_type_count: self.result_type_count }
    }
}

impl Signature {
    #[verifier::type_invariant]
    spec fn valid(&self) -> bool {
        self.result_type_count <= self.types@.len()
    }

    /// The result types followed by the parameter types, in specifications.
    pub closed spec fn spec_types(&self) -> Seq<type_system::Reference> {
        self.types@
    }

    /// The number of result types, in specifications.
    pub closed spec fn spec_result_type_count(&self) -> nat {
        self.result_type_count as nat
    }

    /// Creates a function signature with the specified result types followed by the parameter types.
    pub fn from_types(types: Vec<type_system::Reference>, result_type_count: usize) -> (r: Self)
        requires
            result_type_count <= types@.len(),
        ensures
            r.spec_types() == types@,
            r.spec_result_type_count() == result_type_count,
    {
        Self { types, result_type_count }
    }

    /// The number of result types.
    pub fn result_type_count(&self) -> (r: usize)
        ensures
            r == self.spec_result_type_count(),
            r <= self.spec_types().len(),
    {
        proof {
            use_type_invariant(self);
        }
        self.result_type_count
    }

    /// The number of parameter types.
    pub fn parameter_type_count(&self) -> (r: usize)
        ensures
            r == self.spec_types().len() - self.spec_result_type_count(),
    {
        proof {
            use_type_invariant(self);
        }
        self.types.len() - self.result_type_count
    }

    /// The result types.
    pub fn result_types(&self) -> (r: &[type_system::Reference])
        ensures
            r@ == self.spec_types().subrange(0, self.spec_result_type_count() as int),
    {
        proof {
            use_type_invariant(self);
        }
        &self.types.as_slice()[0..self.result_type_count]
    }

    /// The parameter types.
    pub fn parameter_types(&self) -> (r: &[type_system::Reference])
        ensures
            r@ == self.spec_types().subrange(self.spec_result_type_count() as int, self.spec_types().len() as int),
    {
        proof {
            use_type_invariant(self);
        }
        &self.types.as_slice()[self.result_type_count..self.types.len()]
    }

    /// The result types followed by the parameter types.
    pub fn all_types(&self) -> (r: &Vec<type_system::Reference>)
        ensures
            r@ == self.spec_types(),
    {
        &self.types
    }

    /// Returns the result types followed by the parameter types.
    pub fn into_types(self) -> (r: Vec<type_system::Reference>)
        ensures
            r@ == self.spec_types(),
    {
        self.types
    }
}

/// A function template is either a function definition or a function import.
#[derive(Clone, Copy, Debug, PartialEq, Eq, Structural, Hash)]
pub enum Template {
    /// Refers to a function definition, by its position among the module's function definitions.
    Definition(usize),
    /// Refers to a function import, by its position among the module's function imports.
    Import(usize),
}

/// Lists the function templates of a module, in the order in which the definitions and imports appear.
#[derive(Clone, Debug, Default, PartialEq, Eq)]
pub struct TemplateLookup {
    templates: Vec<Template>,
}

impl View for TemplateLookup {
    type V = Seq<Template>;

    closed spec fn view(&self) -> Seq<Template> {
        self.templates@
    }
}

impl TemplateLookup {
    /// Creates an empty lookup.
    pub fn new() -> (r: Self)
        ensures
            r@ == Seq::<Template>::empty(),
    {
        TemplateLookup { templates: Vec::new() }
    }

    /// Reserves space for more templates.
    pub fn reserve(&mut self, capacity: usize)
        ensures
            final(self)@ == old(self)@,
    {
        self.templates.reserve(capacity)
    }

    /// Appends a template.
    pub fn insert(&mut self, template: Template)
        ensures
            final(self)@ == old(self)@.push(template),
    {
        self.templates.push(template)
    }

    /// Gets the template with the given index, or `None` if the index is out of bounds.
    pub fn get_template(&self, index: index::FunctionTemplate) -> (r: Option<&Template>)
        ensures
            index@ < self@.len() ==> r == Some(&self@[index@ as int]),
            index@ >= self@.len() ==> r is None,
    {
        let i = index.get();
        if i < self.templates.len() {
            Some(&self.templates[i])
        } else {
            None
        }
    }

    /// The number of templates.
    pub fn count(&self) -> (r: usize)
        ensures
            r == self@.len(),
    {
        self.templates.len()
    }

    /// The templates, in order.
    pub fn iter_templates(&self) -> (r: &Vec<Template>)
        ensures
            r@ == self@,
    {
        &self.templates
    }
}

/// Instantiates a function template.
#[derive(Clone, Copy, Debug, PartialEq, Eq)]
pub struct Instantiation {
    /// The function template that is instantiated.
    pub template: index::FunctionTemplate,
}

impl Instantiation {
    /// Creates an instantiation of a function template.
    pub fn with_template(template: index::FunctionTemplate) -> (r: Self)
        ensures
            r.template@ == template@,
    {
        Self { template }
    }
}

/// A function imported from another module.
#[derive(Clone, Debug, PartialEq, Eq)]
pub struct Import {
    /// The module that the function is imported from.
    pub module: index::Module,
    /// The symbol of the function within the imported module.
    pub symbol: Identifier,
    /// The signature of the imported function.
    pub signature: index::FunctionSignature,
}

impl Import {
    /// Creates a function import.
    pub fn new(module: index::Module, symbol: Identifier, signature: index::FunctionSignature) -> (r: Self)
        ensures
            r.module@ == module@,
            r.symbol@ == symbol@,
            r.signature@ == signature@,
    {
        Self { module, symbol, signature }
    }
}

/// A function body, in specifications.
pub struct BodyView {
    pub result_types: Seq<type_system::ReferenceView>,
    pub entry_block: instruction::block::BlockView,
    pub other_blocks: Seq<instruction::block::BlockView>,
}

impl View for Body {
    type V = BodyView;

    open spec fn view(&self) -> BodyView {
        BodyView {
            result_types: crate::binary::parser::spec_views(self.spec_result_types()),
            entry_block: self.spec_entry_block()@,
            other_blocks: crate::binary::parser::spec_views(self.spec_other_blocks()),
        }
    }
}

/// A function signature, in specifications.
pub struct SignatureView {
    /// The result types followed by the parameter types.
    pub types: Seq<type_system::ReferenceView>,
    /// The number of result types.
    pub result_count: nat,
}

impl View for Signature {
    type V = SignatureView;

    open spec fn view(&self) -> SignatureView {
        SignatureView {
            types: crate::binary::parser::spec_views(self.spec_types()),
            result_count: self.spec_result_type_count(),
        }
    }
}

impl View for Definition {
    type V = (usize, usize);

    /// The signature index and the body index.
    open spec fn view(&self) -> (usize, usize) {
        (self.signature@, self.body@)
    }
}

impl View for Instantiation {
    type V = usize;

    /// The index of the function template.
    open spec fn view(&self) -> usize {
        self.template@
    }
}

/// A function import, in specifications.
pub struct ImportView {
    pub module: usize,
    pub symbol: Seq<char>,
    pub signature: usize,
}

impl View for Import {
    type V = ImportView;

    open spec fn view(&self) -> ImportView {
        ImportView { module: self.module@, symbol: self.symbol@, signature: self.signature@ }
    }
}

} // verus!

//! Provides the representation for a basic block.
use vstd::prelude::*;
use crate::instruction::Instruction;
use crate::type_system;

verus! {

/// Reprsents a [basic block](https://en.wikipedia.org/wiki/Basic_block) in IL4IL, which is a sequence of instructions that must end with a
/// branch instruction.
///
/// Use [`Instruction::is_terminator`] to determine whether an [`Instruction`] can be used at the end of a block.
#[derive(Debug, PartialEq, Eq)]
pub struct Block {
    types: Vec<type_system::Reference>,
    input_count: usize,
    instructions: Vec<Instruction>,
}

impl Clone for Block {
    fn clone(&self) -> (r: Self)
        ensures
            r.spec_types() == self.spec_types(),
            r.spec_input_count() == self.spec_input_count(),
            r.spec_instructions().len() == self.spec_instructions().len(),
    {
        proof {
            use_type_invariant(self);
        }
        let types = self.types.clone();
        assert(types@ =~= self.types@);
        Block { types, input_count: self.input_count, instructions: self.instructions.clone() }
    }
}

impl Block {
    #[verifier::type_invariant]
    spec fn valid(&self) -> bool {
        self.input_count <= self.types@.len()
    }

    /// The types of the input registers followed by the types of the temporary registers, in specifications.
    pub closed spec fn spec_types(&self) -> Seq<type_system::Reference> {
        self.types@
    }

    /// The number of input registers, in specifications.
    pub closed spec fn spec_input_count(&self) -> nat {
        self.input_count as nat
    }

    /// The instructions of the block, in specifications.
    pub closed spec fn spec_instructions(&self) -> Seq<Instruction> {
        self.instructions@
    }

    /// Creates a code block with the specified input register, and temporary register types.
    pub fn from_types(types: Vec<type_system::Reference>, input_count: usize, instructions: Vec<Instruction>) -> (r: Self)
        requires
            types@.len() >= input_count,
        ensures
            r.spec_types() == types@,
            r.spec_input_count() == input_count,
            r.spec_instructions() == instructions@,
    {
        Self { types, input_count, instructions }
    }

    /// Creates a code block from the types of its input registers and the types of its temporary registers.
    pub fn new(input_types: Vec<type_system::Reference>, temporary_types: Vec<type_system::Reference>, instructions: Vec<Instruction>) -> (r: Self)
        ensures
            r.spec_types() == input_types@ + temporary_types@,
            r.spec_input_count() == input_types@.len(),
            r.spec_instructions() == instructions@,
    {
        let input_count = input_types.len();
        let mut types = input_types;
        let mut temporaries = temporary_types;
        types.append(&mut temporaries);
        Self::from_types(types, input_count, instructions)
    }

    /// Gets the number of input registers.
    pub fn input_count(&self) -> (r: usize)
        ensures
            r == self.spec_input_count(),
            r <= self.spec_types().len(),
    {
        proof {
            use_type_invariant(self);
        }
        self.input_count
    }

    /// Gets the total number of temporary registers defined in this block.
    pub fn temporary_count(&self) -> (r: usize)
        ensures
            r == self.spec_types().len() - self.spec_input_count(),
    {
        proof {
            use_type_invariant(self);
        }
        self.types.len() - self.input_count
    }

    /// The types of the input registers.
    pub fn input_types(&self) -> (r: &[type_system::Reference])
        ensures
            r@ == self.spec_types().subrange(0, self.spec_input_count() as int),
    {
        proof {
            use_type_invariant(self);
        }
        &self.types.as_slice()[0..self.input_count]
    }

    /// The types of the temporary registers.
    pub fn temporary_types(&self) -> (r: &[type_system::Reference])
        ensures
            r@ == self.spec_types().subrange(self.spec_input_count() as int, self.spec_types().len() as int),
    {
        proof {
            use_type_invariant(self);
        }
        &self.types.as_slice()[self.input_count..self.types.len()]
    }

    /// The types of the input registers followed by the types of the temporary registers.
    pub fn types(&self) -> (r: &Vec<type_system::Reference>)
        ensures
            r@ == self.spec_types(),
    {
        &self.types
    }

    /// The instructions of the block.
    pub fn instructions(&self) -> (r: &Vec<Instruction>)
        ensures
            r@ == self.spec_instructions(),
    {
        &self.instructions
    }
}

/// A basic block, in specifications.
pub struct BlockView {
    /// The types of the input registers followed by the types of the temporary registers.
    pub types: Seq<type_system::ReferenceView>,
    /// The number of input registers.
    pub input_count: nat,
    /// The instructions of the block.
    pub instructions: Seq<crate::instruction::InstructionView>,
}

impl View for Block {
    type V = BlockView;

    open spec fn view(&self) -> BlockView {
        BlockView {
            types: crate::binary::parser::spec_views(self.spec_types()),
            input_count: self.spec_input_count(),
            instructions: crate::binary::parser::spec_views(self.spec_instructions()),
        }
    }
}

impl Block {
    /// Every block has at least as many types as input registers.
    pub fn check_counts(&self)
        ensures
            self.spec_input_count() <= self.spec_types().len(),
    {
        proof {
            use_type_invariant(self);
        }
    }
}

} // verus!

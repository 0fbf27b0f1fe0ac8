//! Provides a model of the IL4IL instruction set.
pub mod block;
pub mod value;

pub use block::Block;
pub use value::Value;

use vstd::prelude::*;
use crate::integer::VarU28;

verus! {

/// Represents an IL4IL instruction.
#[derive(Debug, PartialEq, Eq)]
pub enum Instruction {
    /// Indicates that control flow cannot reach this particular location, causing undefined behavior otherwise.
    Unreachable,
    /// Transfers control flow back to the calling function, providing the specified return value(s).
    Return(Vec<Value>),
}

impl Clone for Instruction {
    fn clone(&self) -> (r: Self)
        ensures
            r@ == self@,
    {
        match self {
            Instruction::Unreachable => Instruction::Unreachable,
            Instruction::Return(values) => {
                let mut copied: Vec<Value> = Vec::new();
                let mut i: usize = 0;
                while i < values.len()
                    invariant
                        i <= values@.len(),
                        copied@ == values@.take(i as int),
                    decreases values.len() - i,
                {
                    copied.push(values[i]);
                    i = i + 1;
                    assert(copied@ =~= values@.take(i as int));
                }
                assert(values@.take(values@.len() as int) =~= values@);
                Instruction::Return(copied)
            },
        }
    }
}

/// Whether an instruction can only be used at the end of a block.
pub open spec fn spec_is_terminator(instruction: Instruction) -> bool {
    match instruction {
        Instruction::Unreachable => true,
        Instruction::Return(_) => true,
    }
}

/// Specifies an IL4IL instruction.
#[derive(Clone, Copy, Debug, PartialEq, Eq, Structural, Hash)]
pub enum Opcode {
    Unreachable,
    Return,
}

/// The number that an opcode is written as.
pub open spec fn spec_opcode_value(opcode: Opcode) -> u32 {
    match opcode {
        Opcode::Unreachable => 0,
        Opcode::Return => 1,
    }
}

/// The opcode of an instruction.
pub open spec fn spec_opcode(instruction: Instruction) -> Opcode {
    match instruction {
        Instruction::Unreachable => Opcode::Unreachable,
        Instruction::Return(_) => Opcode::Return,
    }
}

/// Error type used when an integer does not correspond to a valid [`Opcode`].
#[derive(Clone, Copy, Debug, PartialEq, Eq, Structural)]
pub struct InvalidOpcodeError {
    pub opcode: VarU28,
}

impl Opcode {
    /// The number that this opcode is written as.
    pub fn into_u28(self) -> (r: VarU28)
        ensures
            r@ == spec_opcode_value(self),
    {
        match self {
            Opcode::Unreachable => VarU28::from_u8(0),
            Opcode::Return => VarU28::from_u8(1),
        }
    }

    /// Gets the opcode written as the given number.
    pub fn try_from_u28(value: VarU28) -> (r: Result<Self, InvalidOpcodeError>)
        ensures
            r matches Ok(op) ==> spec_opcode_value(op) == value@,
            r matches Err(e) ==> e.opcode == value && forall|op: Opcode| spec_opcode_value(op) != value@,
    {
        let v = value.get();
        if v == 0 {
            Ok(Opcode::Unreachable)
        } else if v == 1 {
            Ok(Opcode::Return)
        } else {
            Err(InvalidOpcodeError { opcode: value })
        }
    }
}

impl Instruction {
    /// Returns `true` if this [`Instruction`] can only be used at the end of a [`Block`].
    pub fn is_terminator(&self) -> (r: bool)
        ensures
            r == spec_is_terminator(*self),
    {
        match self {
            Instruction::Unreachable => true,
            Instruction::Return(_) => true,
        }
    }

    /// Gets the opcode of this instruction.
    pub fn opcode(&self) -> (r: Opcode)
        ensures
            r == spec_opcode(*self),
    {
        match self {
            Instruction::Unreachable => Opcode::Unreachable,
            Instruction::Return(_) => Opcode::Return,
        }
    }
}

/// An instruction, in specifications.
pub enum InstructionView {
    Unreachable,
    Return(Seq<Value>),
}

impl View for Instruction {
    type V = InstructionView;

    open spec fn view(&self) -> InstructionView {
        match self {
            Instruction::Unreachable => InstructionView::Unreachable,
            Instruction::Return(values) => InstructionView::Return(values@),
        }
    }
}


/// The text that [`std::fmt::Debug`] writes for an instruction.
pub open spec fn spec_instruction_text(i: InstructionView) -> Seq<char> {
    match i {
        InstructionView::Unreachable => "Unreachable"@,
        InstructionView::Return(values) => "Return(["@ + value::spec_joined_values(values) + "])"@,
    }
}

impl Instruction {
    /// The text that [`std::fmt::Debug`] writes for the instruction.
    pub fn to_debug_text(&self) -> (r: String)
        ensures
            r@ == spec_instruction_text(self@),
    {
        let mut r = String::new();
        match self {
            Instruction::Unreachable => crate::text::push_str(&mut r, "Unreachable"),
            Instruction::Return(values) => {
                crate::text::push_str(&mut r, "Return([");
                value::push_values_text(&mut r, values.as_slice());
                crate::text::push_str(&mut r, "])");
            },
        }
        assert(r@ =~= spec_instruction_text(self@));
        r
    }
}
} // verus!

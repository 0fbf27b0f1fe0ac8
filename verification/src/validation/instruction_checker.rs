//! Provides functions to validate the contents of function bodies.
use vstd::prelude::*;
use crate::binary::parser::spec_views;
use crate::function::Body;
use crate::function::BodyView;
use crate::index;
use crate::instruction::Instruction;
use crate::instruction::InstructionView;
use crate::instruction::block::Block;
use crate::type_system::Reference;
use crate::type_system::ReferenceView;
use crate::type_system::Type;
use crate::type_system::TypeView;
use crate::validation::error::IndexKind;
use crate::validation::error::InvalidIndexError;
use crate::validation::error::InvalidInstructionError;
use crate::validation::error::InvalidInstructionKind;
use crate::validation::error::InvalidInstructionLocation;
use crate::validation::error::InvalidValueError;
use crate::validation::error::spec_invalid_index;
use crate::validation::value_checker::check_values;
use crate::validation::value_checker::spec_first_misfit;
use crate::validation::value_checker::spec_value_fits;
use crate::validation::value_checker::lemma_first_misfit;

verus! {

/// The type that a type reference stands for, or `None` when it is an index past the end of the types.
pub open spec fn spec_resolve(types: Seq<TypeView>, r: ReferenceView) -> Option<TypeView> {
    match r {
        ReferenceView::Inline(t) => Some(t),
        ReferenceView::Index(i) => if i < types.len() {
            Some(types[i as int])
        } else {
            None
        },
    }
}

/// The position of the first type reference, from position `start` on, that does not stand for a type.
pub open spec fn spec_first_unresolved(types: Seq<TypeView>, refs: Seq<ReferenceView>, start: int) -> Option<nat>
    decreases refs.len() - start,
{
    if start < 0 || start >= refs.len() {
        None
    } else if spec_resolve(types, refs[start]) is None {
        Some(start as nat)
    } else {
        spec_first_unresolved(types, refs, start + 1)
    }
}

/// The types that the type references stand for.
pub open spec fn spec_resolve_all(types: Seq<TypeView>, refs: Seq<ReferenceView>) -> Seq<TypeView> {
    Seq::new(refs.len(), |i: int| spec_resolve(types, refs[i]).unwrap())
}

/// What is wrong with an instruction on its own, given the types of the results of its function.
pub open spec fn spec_instruction_problem(i: InstructionView, expected: Seq<TypeView>) -> Option<InvalidInstructionKind> {
    match i {
        InstructionView::Unreachable => None,
        InstructionView::Return(values) => if values.len() != expected.len() {
            Some(
                InvalidInstructionKind::ResultCountMismatch {
                    expected: expected.len() as usize,
                    actual: values.len() as usize,
                },
            )
        } else {
            match spec_first_misfit(values, expected, 0) {
                Some(j) => Some(InvalidInstructionKind::InvalidValue(InvalidValueError { value: values[j as int] })),
                None => None,
            }
        },
    }
}

/// Whether an instruction ends a block.
pub open spec fn spec_view_is_terminator(i: InstructionView) -> bool {
    match i {
        InstructionView::Unreachable => true,
        InstructionView::Return(_) => true,
    }
}

/// The first problem in a block, from the instruction at position `start` on: an instruction after a terminator, an
/// instruction that is wrong on its own, or, at the end, a block that does not end with a terminator. The problem is
/// given with the position of the instruction it is found at, which for a missing terminator is the last instruction.
pub open spec fn spec_block_problem(
    instructions: Seq<InstructionView>,
    expected: Seq<TypeView>,
    start: int,
) -> Option<(Option<nat>, InvalidInstructionKind)>
    decreases instructions.len() - start,
{
    if start < 0 {
        None
    } else if start >= instructions.len() {
        if instructions.len() == 0 {
            Some((None, InvalidInstructionKind::ExpectedTerminator))
        } else if !spec_view_is_terminator(instructions.last()) {
            Some((Some((instructions.len() - 1) as nat), InvalidInstructionKind::ExpectedTerminator))
        } else {
            None
        }
    } else if start > 0 && spec_view_is_terminator(instructions[start - 1]) {
        Some((Some(start as nat), InvalidInstructionKind::ExpectedTerminatorAsLastInstruction))
    } else {
        match spec_instruction_problem(instructions[start], expected) {
            Some(kind) => Some((Some(start as nat), kind)),
            None => spec_block_problem(instructions, expected, start + 1),
        }
    }
}

/// The blocks of a function body, starting with the entry block.
pub open spec fn spec_body_blocks(body: BodyView) -> Seq<crate::instruction::block::BlockView> {
    seq![body.entry_block] + body.other_blocks
}

/// The first problem in the blocks of a body, from the block at position `start` on, with the position of its block.
pub open spec fn spec_first_block_problem(
    blocks: Seq<crate::instruction::block::BlockView>,
    expected: Seq<TypeView>,
    start: int,
) -> Option<(nat, Option<nat>, InvalidInstructionKind)>
    decreases blocks.len() - start,
{
    if start < 0 || start >= blocks.len() {
        None
    } else {
        match spec_block_problem(blocks[start].instructions, expected, 0) {
            Some((location, kind)) => Some((start as nat, location, kind)),
            None => spec_first_block_problem(blocks, expected, start + 1),
        }
    }
}

/// The first problem in a function body, with the position of its block and of its instruction: a result type that
/// refers to a type that does not exist is found at the entry block, and otherwise the first problem of the blocks.
pub open spec fn spec_body_problem(body: BodyView, types: Seq<TypeView>) -> Option<(nat, Option<nat>, InvalidInstructionKind)> {
    match spec_first_unresolved(types, body.result_types, 0) {
        Some(i) => {
            let index = body.result_types[i as int]->Index_0;
            Some((0, None, InvalidInstructionKind::InvalidResultType(spec_invalid_index(IndexKind::Type, index, types.len()))))
        },
        None => spec_first_block_problem(spec_body_blocks(body), spec_resolve_all(types, body.result_types), 0),
    }
}

/// Whether an error describes a problem found in a block with the given position and instructions.
pub open spec fn spec_describes_block_problem(
    e: InvalidInstructionError,
    block_index: nat,
    instructions: Seq<InstructionView>,
    location: Option<nat>,
    kind: InvalidInstructionKind,
) -> bool {
    &&& e.block_index@ == block_index
    &&& e.kind == kind
    &&& match location {
        None => e.location is None,
        Some(i) => e.location matches Some(l) && l.index == i && l.instruction@ == instructions[i as int],
    }
}

/// Whether an error describes a problem found in the blocks of a body.
pub open spec fn spec_describes_problem(
    e: InvalidInstructionError,
    blocks: Seq<crate::instruction::block::BlockView>,
    problem: (nat, Option<nat>, InvalidInstructionKind),
) -> bool {
    spec_describes_block_problem(e, problem.0, blocks[problem.0 as int].instructions, problem.1, problem.2)
}

/// Resolves the type references against the types of a module.
pub fn resolve_many(refs: &[Reference], types: &[Type]) -> (r: Result<Vec<Type>, InvalidIndexError>)
    ensures
        match spec_first_unresolved(spec_views(types@), spec_views(refs@), 0) {
            None => r matches Ok(v) && spec_views(v@) == spec_resolve_all(spec_views(types@), spec_views(refs@)),
            Some(i) => r == Err::<Vec<Type>, InvalidIndexError>(
                spec_invalid_index(IndexKind::Type, spec_views(refs@)[i as int]->Index_0, types@.len()),
            ),
        },
{
    let ghost tv = spec_views(types@);
    let ghost rv = spec_views(refs@);
    let mut resolved: Vec<Type> = Vec::new();
    let mut i: usize = 0;
    while i < refs.len()
        invariant
            i <= refs@.len(),
            tv == spec_views(types@),
            rv == spec_views(refs@),
            spec_first_unresolved(tv, rv, 0) == spec_first_unresolved(tv, rv, i as int),
            spec_views(resolved@) == spec_resolve_all(tv, rv).take(i as int),
        decreases refs.len() - i,
    {
        match &refs[i] {
            Reference::Inline(ty) => {
                let ghost before = resolved@;
                resolved.push(*ty);
                assert(rv[i as int] == refs@[i as int]@);
                assert(spec_views(resolved@) =~= spec_views(before).push(ty@));
                assert(spec_views(resolved@) =~= spec_resolve_all(tv, rv).take(i + 1));
            },
            Reference::Index(index) => {
                let n = index.get();
                if n < types.len() {
                    let ghost before = resolved@;
                    resolved.push(types[n]);
                    assert(rv[i as int] == refs@[i as int]@);
                    assert(spec_views(resolved@) =~= spec_views(before).push(types@[n as int]@));
                    assert(spec_views(resolved@) =~= spec_resolve_all(tv, rv).take(i + 1));
                } else {
                    return Err(InvalidIndexError::new(IndexKind::Type, n, types.len()));
                }
            },
        }
        i = i + 1;
    }
    assert(spec_resolve_all(tv, rv).take(refs@.len() as int) =~= spec_resolve_all(tv, rv));
    Ok(resolved)
}

/// Checks one instruction on its own.
fn check_instruction(instruction: &Instruction, expected: &[Type]) -> (r: Result<(), InvalidInstructionKind>)
    ensures
        match spec_instruction_problem(instruction@, spec_views(expected@)) {
            None => r is Ok,
            Some(kind) => r == Err::<(), InvalidInstructionKind>(kind),
        },
{
    assert(spec_views(expected@).len() == expected@.len());
    match instruction {
        Instruction::Unreachable => Ok(()),
        Instruction::Return(values) => {
            if values.len() != expected.len() {
                return Err(
                    InvalidInstructionKind::ResultCountMismatch { expected: expected.len(), actual: values.len() },
                );
            }
            match check_values(values.as_slice(), expected) {
                Ok(()) => Ok(()),
                Err(e) => Err(InvalidInstructionKind::InvalidValue(e)),
            }
        },
    }
}

/// Checks the instructions of a block, given the types of the results of its function.
fn check_block(block: &Block, block_index: usize, expected: &[Type]) -> (r: Result<(), InvalidInstructionError>)
    ensures
        match spec_block_problem(block@.instructions, spec_views(expected@), 0) {
            None => r is Ok,
            Some(problem) => r matches Err(e) && spec_describes_block_problem(
                e,
                block_index as nat,
                block@.instructions,
                problem.0,
                problem.1,
            ),
        },
{
    let instructions = block.instructions();
    let ghost iv = block@.instructions;
    let ghost ev = spec_views(expected@);
    assert(iv == spec_views(instructions@));
    let mut reached_terminator = false;
    let mut i: usize = 0;
    while i < instructions.len()
        invariant
            i <= instructions@.len(),
            iv == block@.instructions,
            iv == spec_views(instructions@),
            ev == spec_views(expected@),
            spec_block_problem(iv, ev, 0) == spec_block_problem(iv, ev, i as int),
            reached_terminator == (i > 0 && spec_view_is_terminator(iv[i - 1])),
        decreases instructions.len() - i,
    {
        let instruction = &instructions[i];
        assert(iv[i as int] == instructions@[i as int]@);
        if reached_terminator {
            assert(spec_block_problem(iv, ev, i as int) == Some::<(Option<nat>, InvalidInstructionKind)>(
                (Some(i as nat), InvalidInstructionKind::ExpectedTerminatorAsLastInstruction),
            ));
            return Err(
                InvalidInstructionError::new(
                    index::Index::new(block_index),
                    Some(InvalidInstructionLocation::new(instruction.clone(), i)),
                    InvalidInstructionKind::ExpectedTerminatorAsLastInstruction,
                ),
            );
        }
        match check_instruction(instruction, expected) {
            Ok(()) => {},
            Err(kind) => {
                assert(spec_instruction_problem(iv[i as int], ev) == Some(kind));
                assert(!(i > 0 && spec_view_is_terminator(iv[i - 1])));
                assert(spec_block_problem(iv, ev, i as int) == Some::<(Option<nat>, InvalidInstructionKind)>(
                    (Some(i as nat), kind),
                ));
                return Err(
                    InvalidInstructionError::new(
                        index::Index::new(block_index),
                        Some(InvalidInstructionLocation::new(instruction.clone(), i)),
                        kind,
                    ),
                );
            },
        }
        reached_terminator = instruction.is_terminator();
        i = i + 1;
    }
    if instructions.len() > 0 {
        assert(iv.last() == instructions@[instructions.len() - 1]@);
    }
    if !reached_terminator {
        let location = if instructions.len() == 0 {
            None
        } else {
            let last = instructions.len() - 1;
            Some(InvalidInstructionLocation::new(instructions[last].clone(), last))
        };
        return Err(
            InvalidInstructionError::new(
                index::Index::new(block_index),
                location,
                InvalidInstructionKind::ExpectedTerminator,
            ),
        );
    }
    Ok(())
}

/// Checks the blocks of a function body against the types of its results, which are resolved against the types of the
/// module.
#[verifier::spinoff_prover]
pub fn validate_body(body: &Body, types: &[Type]) -> (r: Result<(), InvalidInstructionError>)
    ensures
        match spec_body_problem(body@, spec_views(types@)) {
            None => r is Ok,
            Some(problem) => r matches Err(e) && spec_describes_problem(e, spec_body_blocks(body@), problem),
        },
{
    let expected = match resolve_many(body.result_types().as_slice(), types) {
        Ok(expected) => expected,
        Err(e) => {
            return Err(
                InvalidInstructionError::new(index::Index::new(0), None, InvalidInstructionKind::InvalidResultType(e)),
            );
        },
    };
    let blocks = body.iter_blocks();
    let ghost bv = spec_body_blocks(body@);
    let ghost ev = spec_views(expected@);
    assert(blocks@.len() == bv.len());
    assert forall|k: int| 0 <= k < bv.len() implies #[trigger] blocks@[k]@ == bv[k] by {
        assert(*blocks@[k] == body.spec_blocks()[k]);
        if k > 0 {
            assert(body.spec_blocks()[k] == body.spec_other_blocks()[k - 1]);
        }
    }
    let mut b: usize = 0;
    while b < blocks.len()
        invariant
            b <= blocks@.len(),
            bv == spec_body_blocks(body@),
            ev == spec_resolve_all(spec_views(types@), body@.result_types),
            spec_first_unresolved(spec_views(types@), body@.result_types, 0) is None,
            blocks@.len() == bv.len(),
            forall|k: int| 0 <= k < bv.len() ==> #[trigger] blocks@[k]@ == bv[k],
            ev == spec_views(expected@),
            spec_first_block_problem(bv, ev, 0) == spec_first_block_problem(bv, ev, b as int),
        decreases blocks.len() - b,
    {
        let result = check_block(blocks[b], b, expected.as_slice());
        assert(blocks@[b as int]@ == bv[b as int]);
        if result.is_err() {
            return result;
        }
        b = b + 1;
    }
    Ok(())
}

/// Whether an instruction is right on its own: `unreachable` always is, and a return is when it returns one value for
/// each result type, each value fitting the type at its position.
pub open spec fn spec_instruction_valid(i: InstructionView, expected: Seq<TypeView>) -> bool {
    match i {
        InstructionView::Unreachable => true,
        InstructionView::Return(values) => values.len() == expected.len() && forall|k: int|
            0 <= k < values.len() ==> #[trigger] spec_value_fits(values[k], expected[k]),
    }
}

/// Whether a block is well formed: it has instructions, it ends with a terminator, no instruction before its last is a
/// terminator, and each instruction is right on its own.
pub open spec fn spec_block_well_formed(instructions: Seq<InstructionView>, expected: Seq<TypeView>) -> bool {
    &&& instructions.len() > 0
    &&& spec_view_is_terminator(instructions.last())
    &&& forall|k: int| 0 <= k < instructions.len() - 1 ==> !spec_view_is_terminator(#[trigger] instructions[k])
    &&& forall|k: int| 0 <= k < instructions.len() ==> spec_instruction_valid(#[trigger] instructions[k], expected)
}

/// An instruction has no problem of its own exactly when it is right on its own.
proof fn lemma_instruction_problem(i: InstructionView, expected: Seq<TypeView>)
    ensures
        spec_instruction_problem(i, expected) is None <==> spec_instruction_valid(i, expected),
{
    if let InstructionView::Return(values) = i {
        if values.len() == expected.len() {
            lemma_first_misfit(values, expected, 0);
        }
    }
}

/// A block has no problem from position `start` on exactly when it ends with a terminator and each instruction from
/// `start` on is right on its own and follows no terminator.
proof fn lemma_block_problem_from(instructions: Seq<InstructionView>, expected: Seq<TypeView>, start: int)
    requires
        0 <= start <= instructions.len(),
    ensures
        spec_block_problem(instructions, expected, start) is None <==> {
            &&& instructions.len() > 0
            &&& spec_view_is_terminator(instructions.last())
            &&& forall|k: int| start <= k < instructions.len() ==> spec_instruction_valid(#[trigger] instructions[k], expected)
            &&& forall|j: int| 0 <= j && start <= j + 1 && j + 1 < instructions.len() ==> !spec_view_is_terminator(
                #[trigger] instructions[j],
            )
        },
    decreases instructions.len() - start,
{
    if start < instructions.len() {
        lemma_block_problem_from(instructions, expected, start + 1);
        lemma_instruction_problem(instructions[start], expected);
    }
}

/// A block has no problem exactly when it is well formed.
pub proof fn lemma_block_problem(instructions: Seq<InstructionView>, expected: Seq<TypeView>)
    ensures
        spec_block_problem(instructions, expected, 0) is None <==> spec_block_well_formed(instructions, expected),
{
    lemma_block_problem_from(instructions, expected, 0);
}

/// The blocks from position `start` on have no problem exactly when each of them has none; a problem found is at the
/// first block that has one.
proof fn lemma_first_block_problem(
    blocks: Seq<crate::instruction::block::BlockView>,
    expected: Seq<TypeView>,
    start: int,
)
    requires
        0 <= start <= blocks.len(),
    ensures
        spec_first_block_problem(blocks, expected, start) is None <==> forall|k: int|
            start <= k < blocks.len() ==> spec_block_well_formed(#[trigger] blocks[k].instructions, expected),
        spec_first_block_problem(blocks, expected, start) matches Some(p) ==> {
            &&& start <= p.0 < blocks.len()
            &&& !spec_block_well_formed(blocks[p.0 as int].instructions, expected)
            &&& forall|k: int| start <= k < p.0 ==> spec_block_well_formed(#[trigger] blocks[k].instructions, expected)
        },
    decreases blocks.len() - start,
{
    if start < blocks.len() {
        lemma_first_block_problem(blocks, expected, start + 1);
        lemma_block_problem(blocks[start].instructions, expected);
    }
}

/// A function body is valid exactly when its result types refer to types of the module and every one of its blocks,
/// the entry block and each of the other blocks, is well formed against those result types. A problem is reported at
/// the first block that is not well formed, every block before it being well formed.
pub proof fn lemma_body_valid(body: BodyView, types: Seq<TypeView>)
    ensures
        ({
            let expected = spec_resolve_all(types, body.result_types);
            spec_body_problem(body, types) is None <==> {
                &&& spec_first_unresolved(types, body.result_types, 0) is None
                &&& spec_block_well_formed(body.entry_block.instructions, expected)
                &&& forall|k: int|
                    0 <= k < body.other_blocks.len() ==> spec_block_well_formed(
                        #[trigger] body.other_blocks[k].instructions,
                        expected,
                    )
            }
        }),
        ({
            let expected = spec_resolve_all(types, body.result_types);
            spec_first_unresolved(types, body.result_types, 0) is None ==> (spec_body_problem(body, types) matches Some(
                p,
            ) ==> {
                &&& p.0 <= body.other_blocks.len()
                &&& !spec_block_well_formed(spec_body_blocks(body)[p.0 as int].instructions, expected)
                &&& forall|k: int|
                    0 <= k < p.0 ==> spec_block_well_formed(#[trigger] spec_body_blocks(body)[k].instructions, expected)
            })
        }),
{
    let expected = spec_resolve_all(types, body.result_types);
    let blocks = spec_body_blocks(body);
    lemma_first_block_problem(blocks, expected, 0);
    assert(blocks[0] == body.entry_block);
    assert forall|k: int| 0 <= k < body.other_blocks.len() implies blocks[k + 1] == body.other_blocks[k] by {}
    if forall|k: int| 0 <= k < blocks.len() ==> spec_block_well_formed(#[trigger] blocks[k].instructions, expected) {
        assert(spec_block_well_formed(blocks[0].instructions, expected));
        assert forall|k: int| 0 <= k < body.other_blocks.len() implies spec_block_well_formed(
            #[trigger] body.other_blocks[k].instructions,
            expected,
        ) by {
            assert(spec_block_well_formed(blocks[k + 1].instructions, expected));
        }
    }
    if spec_block_well_formed(body.entry_block.instructions, expected) && forall|k: int|
        0 <= k < body.other_blocks.len() ==> spec_block_well_formed(#[trigger] body.other_blocks[k].instructions, expected) {
        assert forall|k: int| 0 <= k < blocks.len() implies spec_block_well_formed(
            #[trigger] blocks[k].instructions,
            expected,
        ) by {
            if k > 0 {
                assert(blocks[k] == body.other_blocks[k - 1]);
            }
        }
    }
}

} // verus!

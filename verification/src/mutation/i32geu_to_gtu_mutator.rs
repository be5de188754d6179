//! The unsigned 32-bit `>=` to `>` relational-boundary operator, kept as a
//! named entry point for callers that want just this one swap.

use vstd::prelude::*;

use crate::instr::Instr;
use crate::mutation::instruction_swapping_mutator::InstructionSwappingMutator;
use crate::mutation::mutation::Mutation;
use crate::mutation::mutator::{apply_to_body, found_mutations, MutatorOp};

verus! {

/// The instruction swap `I32GeU -> I32GtU`.
#[derive(Clone, Copy, PartialEq, Eq, Structural, Debug)]
pub struct I32GeUToGtUMutator {
    pub mutator: InstructionSwappingMutator,
}

/// The swap this operator performs.
pub open spec fn i32geu_to_gtu_swap() -> InstructionSwappingMutator {
    (InstructionSwappingMutator {
        original_instruction: Instr::I32GeU,
        replacement_instruction: Instr::I32GtU,
    })
}

impl I32GeUToGtUMutator {
    /// Builds the operator.
    pub fn create() -> (r: Self)
        ensures
            r.mutator == i32geu_to_gtu_swap(),
    {
        I32GeUToGtUMutator {
            mutator: InstructionSwappingMutator {
                original_instruction: Instr::I32GeU,
                replacement_instruction: Instr::I32GtU,
            },
        }
    }

    /// Proposes one mutation per `I32GeU` instruction of `body`, in ascending
    /// instruction order.
    pub fn find(body: &Vec<Instr>, function_index: usize) -> (r: Vec<Mutation>)
        ensures
            r@ == found_mutations(MutatorOp::Swap(i32geu_to_gtu_swap()), body@, function_index),
    {
        I32GeUToGtUMutator::create().mutator.find(body, function_index)
    }

    /// Overwrites the instruction at `index` with `I32GtU`.
    pub fn perform(&self, body: &mut Vec<Instr>, index: usize)
        requires
            index < old(body)@.len(),
        ensures
            final(body)@ == apply_to_body(MutatorOp::Swap(self.mutator), old(body)@, index as int),
    {
        self.mutator.perform(body, index);
    }
}

} // verus!

//! The operator that replaces one specific instruction by another.

use vstd::prelude::*;

use crate::instr::Instr;
use crate::mutation::mutation::Mutation;
use crate::mutation::mutator::{apply_to_body, found_mutations, MutatorOp};

verus! {

/// Replaces every occurrence of `original_instruction` it is pointed at by
/// `replacement_instruction`. Each swap direction of the catalog is its own
/// instance of this operator.
#[derive(Clone, Copy, PartialEq, Eq, Structural, Debug)]
pub struct InstructionSwappingMutator {
    pub original_instruction: Instr,
    pub replacement_instruction: Instr,
}

impl InstructionSwappingMutator {
    /// Proposes one mutation per instruction of `body` that equals
    /// `original_instruction`, in ascending instruction order.
    pub fn find(&self, body: &Vec<Instr>, function_index: usize) -> (r: Vec<Mutation>)
        ensures
            r@ == found_mutations(MutatorOp::Swap(*self), body@, function_index),
    {
        MutatorOp::Swap(*self).find(body, function_index)
    }

    /// Overwrites the instruction at `index` with `replacement_instruction`.
    pub fn perform(&self, body: &mut Vec<Instr>, index: usize)
        requires
            index < old(body)@.len(),
        ensures
            final(body)@ == apply_to_body(MutatorOp::Swap(*self), old(body)@, index as int),
    {
        MutatorOp::Swap(*self).perform(body, index);
    }
}

} // verus!

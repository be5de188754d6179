//! The operator that suppresses a conditional branch.

use vstd::prelude::*;

use crate::instr::Instr;
use crate::mutation::mutation::Mutation;
use crate::mutation::mutator::{apply_to_body, found_mutations, MutatorOp};

verus! {

/// Replaces a conditional branch by a discard of its test, so execution
/// always falls through as if the condition were false.
#[derive(Clone, Copy, PartialEq, Eq, Structural, Debug)]
pub struct IfConditionToFalseMutator;

impl IfConditionToFalseMutator {
    /// Proposes one mutation per conditional-branch instruction of `body`, in
    /// ascending instruction order.
    pub fn find(&self, body: &Vec<Instr>, function_index: usize) -> (r: Vec<Mutation>)
        ensures
            r@ == found_mutations(MutatorOp::IfConditionToFalse(*self), body@, function_index),
    {
        MutatorOp::IfConditionToFalse(*self).find(body, function_index)
    }

    /// Overwrites the instruction at `index` with `Discard`.
    pub fn perform(&self, body: &mut Vec<Instr>, index: usize)
        requires
            index < old(body)@.len(),
        ensures
            final(body)@ == apply_to_body(MutatorOp::IfConditionToFalse(*self), old(body)@, index as int),
    {
        MutatorOp::IfConditionToFalse(*self).perform(body, index);
    }
}

} // verus!

//! The operator that suppresses variable assignments and memory stores.

use vstd::prelude::*;

use crate::instr::Instr;
use crate::mutation::mutation::Mutation;
use crate::mutation::mutator::{apply_to_body, found_mutations, MutatorOp};

verus! {

/// Replaces a local/global assignment by one discard of the assigned value,
/// and a memory store by two discards (one for the stored value, one inserted
/// before it for the address the store would have consumed).
#[derive(Clone, Copy, PartialEq, Eq, Structural, Debug)]
pub struct SetCancellingMutator;

impl SetCancellingMutator {
    /// Proposes one mutation per assignment or store instruction of `body`,
    /// in ascending instruction order.
    pub fn find(&self, body: &Vec<Instr>, function_index: usize) -> (r: Vec<Mutation>)
        ensures
            r@ == found_mutations(MutatorOp::SetCancelling(*self), body@, function_index),
    {
        MutatorOp::SetCancelling(*self).find(body, function_index)
    }

    /// Rewrites the instruction at `index`: an assignment becomes `Discard`, a
    /// store becomes two `Discard`s (lengthening the body by one), and any
    /// other instruction is left unchanged.
    pub fn perform(&self, body: &mut Vec<Instr>, index: usize)
        requires
            index < old(body)@.len(),
        ensures
            final(body)@ == apply_to_body(MutatorOp::SetCancelling(*self), old(body)@, index as int),
    {
        MutatorOp::SetCancelling(*self).perform(body, index);
    }

    /// The operator's name in mutant reports.
    pub fn describe(&self) -> (r: String)
        ensures
            r@ == "SetCancelling"@,
    {
        String::from_str("SetCancelling")
    }
}

} // verus!

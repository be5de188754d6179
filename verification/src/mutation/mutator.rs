//! The closed catalog of mutation operators and their pattern/rewrite rules.
//!
//! An operator can scan a function body for the instructions it knows how to
//! mutate (`find`) and rewrite one located instruction in place (`perform`).
//! Operators are plain values: the whole catalog is a sequence of them, and
//! both capabilities are defined by exhaustive match over the operator kind.

use vstd::prelude::*;

use crate::instr::{is_assignment, is_concrete, is_cond_branch, is_store, Instr};
use crate::mutation::if_condition_to_false_mutator::IfConditionToFalseMutator;
use crate::mutation::instruction_swapping_mutator::InstructionSwappingMutator;
use crate::mutation::mutation::Mutation;
use crate::mutation::set_cancelling_mutator::SetCancellingMutator;

verus! {

/// One mutation operator of the catalog.
#[derive(Clone, Copy, PartialEq, Eq, Structural, Debug)]
pub enum MutatorOp {
    /// Replaces one specific instruction by another (relational-boundary,
    /// arithmetic, logical and rounding swaps are all instances of this).
    Swap(InstructionSwappingMutator),
    /// Suppresses a variable assignment or a memory store by discarding the
    /// operands it would have consumed.
    SetCancelling(SetCancellingMutator),
    /// Suppresses a conditional branch by discarding its test, so the branch
    /// behaves as if the test were always false.
    IfConditionToFalse(IfConditionToFalseMutator),
}

/// Whether `op`'s scan step matches the instruction `ins`.
pub open spec fn op_matches(op: MutatorOp, ins: Instr) -> bool {
    match op {
        MutatorOp::Swap(s) => ins == s.original_instruction,
        MutatorOp::SetCancelling(_) => is_assignment(ins) || is_store(ins),
        MutatorOp::IfConditionToFalse(_) => is_cond_branch(ins),
    }
}

/// Every instruction that `op`'s rewrite step can write is representable, so
/// it can be written back into a real module.
pub open spec fn op_writes_concrete(op: MutatorOp) -> bool {
    match op {
        MutatorOp::Swap(s) => is_concrete(s.replacement_instruction),
        MutatorOp::SetCancelling(_) => true,
        MutatorOp::IfConditionToFalse(_) => true,
    }
}

/// The body that results from applying `op` at instruction index `i` of
/// `body`.
///
/// A swap and a branch suppression overwrite the slot. Cancelling an
/// assignment overwrites it with one discard; cancelling a store additionally
/// inserts a second discard for the address operand, shifting every later
/// instruction one index forward. A set-cancelling rewrite of an instruction
/// outside its trigger set leaves the body unchanged.
pub open spec fn apply_to_body(op: MutatorOp, body: Seq<Instr>, i: int) -> Seq<Instr> {
    match op {
        MutatorOp::Swap(s) => body.update(i, s.replacement_instruction),
        MutatorOp::SetCancelling(_) => if is_assignment(body[i]) {
            body.update(i, Instr::Discard)
        } else if is_store(body[i]) {
            body.update(i, Instr::Discard).insert(i, Instr::Discard)
        } else {
            body
        },
        MutatorOp::IfConditionToFalse(_) => body.update(i, Instr::Discard),
    }
}

/// The mutation proposing to apply `op` at `(f, i)`.
pub open spec fn mutation_at(op: MutatorOp, f: usize, i: usize) -> Mutation {
    (Mutation { mutator: op, function_index: f, instruction_index: i })
}

/// The mutations that `op` finds among the first `n` instructions of `body`
/// in function `f`, in ascending instruction order.
pub open spec fn found_upto(op: MutatorOp, body: Seq<Instr>, f: usize, n: int) -> Seq<Mutation>
    decreases n,
{
    if n <= 0 {
        Seq::empty()
    } else {
        found_upto(op, body, f, n - 1) + if op_matches(op, body[n - 1]) {
            seq![mutation_at(op, f, (n - 1) as usize)]
        } else {
            Seq::empty()
        }
    }
}

/// All mutations that `op` finds in `body` for function `f`.
pub open spec fn found_mutations(op: MutatorOp, body: Seq<Instr>, f: usize) -> Seq<Mutation> {
    found_upto(op, body, f, body.len() as int)
}

/// Every mutation found in the first `n` instructions carries the operator
/// that found it, the scanned function's index, an instruction index below
/// `n`, and targets an instruction its operator matches.
pub proof fn lemma_found_upto_elems(op: MutatorOp, body: Seq<Instr>, f: usize, n: int)
    requires
        n <= body.len() <= usize::MAX,
    ensures
        forall|j: int|
            0 <= j < found_upto(op, body, f, n).len() ==> {
                let m = #[trigger] found_upto(op, body, f, n)[j];
                &&& m.mutator == op
                &&& m.function_index == f
                &&& m.instruction_index < n
                &&& op_matches(op, body[m.instruction_index as int])
            },
    decreases n,
{
    if n > 0 {
        lemma_found_upto_elems(op, body, f, n - 1);
        assert forall|j: int|
            0 <= j < found_upto(op, body, f, n).len() implies {
            let m = #[trigger] found_upto(op, body, f, n)[j];
            &&& m.mutator == op
            &&& m.function_index == f
            &&& m.instruction_index < n
            &&& op_matches(op, body[m.instruction_index as int])
        } by {
            let prev = found_upto(op, body, f, n - 1);
            if j >= prev.len() {
                assert(found_upto(op, body, f, n)[j] == mutation_at(op, f, (n - 1) as usize));
            }
        }
    }
}

impl MutatorOp {
    /// Executable form of [`op_matches`].
    pub fn matches_instr(&self, ins: &Instr) -> (r: bool)
        ensures
            r == op_matches(*self, *ins),
    {
        match self {
            MutatorOp::Swap(s) => *ins == s.original_instruction,
            MutatorOp::SetCancelling(_) => ins.check_assignment() || ins.check_store(),
            MutatorOp::IfConditionToFalse(_) => ins.check_cond_branch(),
        }
    }

    /// Executable form of [`op_writes_concrete`].
    pub fn writes_concrete(&self) -> (r: bool)
        ensures
            r == op_writes_concrete(*self),
    {
        match self {
            MutatorOp::Swap(s) => s.replacement_instruction.check_concrete(),
            MutatorOp::SetCancelling(_) => true,
            MutatorOp::IfConditionToFalse(_) => true,
        }
    }

    /// Scans `body` (the instructions of the function with index
    /// `function_index`) and proposes one mutation per matched instruction,
    /// in ascending instruction order, without mutating anything.
    pub fn find(&self, body: &Vec<Instr>, function_index: usize) -> (r: Vec<Mutation>)
        ensures
            r@ == found_mutations(*self, body@, function_index),
    {
        let mut result: Vec<Mutation> = Vec::new();
        let mut i: usize = 0;
        while i < body.len()
            invariant
                i <= body@.len(),
                result@ == found_upto(*self, body@, function_index, i as int),
            decreases body@.len() - i,
        {
            if self.matches_instr(&body[i]) {
                result.push(
                    Mutation {
                        mutator: *self,
                        function_index,
                        instruction_index: i,
                    },
                );
            }
            i = i + 1;
        }
        result
    }

    /// Rewrites the instruction at `index` of `body` in place, as
    /// [`apply_to_body`] describes.
    pub fn perform(&self, body: &mut Vec<Instr>, index: usize)
        requires
            index < old(body)@.len(),
        ensures
            final(body)@ == apply_to_body(*self, old(body)@, index as int),
    {
        match self {
            MutatorOp::Swap(s) => {
                body[index] = s.replacement_instruction;
            },
            MutatorOp::SetCancelling(_) => {
                let ins = body[index];
                if ins.check_assignment() {
                    body[index] = Instr::Discard;
                } else if ins.check_store() {
                    body[index] = Instr::Discard;
                    body.insert(index, Instr::Discard);
                }
            },
            MutatorOp::IfConditionToFalse(_) => {
                body[index] = Instr::Discard;
            },
        }
    }

    /// A short human-readable name of the operator, for mutant reports.
    pub fn describe(&self) -> (r: String)
        ensures
            r@ == describe_op(*self),
    {
        match self {
            MutatorOp::Swap(_) => String::from_str("InstructionSwapping"),
            MutatorOp::SetCancelling(_) => String::from_str("SetCancelling"),
            MutatorOp::IfConditionToFalse(_) => String::from_str("IfConditionToFalse"),
        }
    }
}

/// The name that [`MutatorOp::describe`] reports for each operator kind.
pub open spec fn describe_op(op: MutatorOp) -> Seq<char> {
    match op {
        MutatorOp::Swap(_) => "InstructionSwapping"@,
        MutatorOp::SetCancelling(_) => "SetCancelling"@,
        MutatorOp::IfConditionToFalse(_) => "IfConditionToFalse"@,
    }
}

} // verus!

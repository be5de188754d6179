//! A proposed, not-yet-applied mutation.

use vstd::prelude::*;

use parity_wasm::elements::Module;

use crate::instr::Instr;
use crate::mutation::mutator::{apply_to_body, op_writes_concrete, MutatorOp};
use crate::wasm::{insert_instr, instr_at, module_bodies, module_has_names, module_name_entries, set_instr};

verus! {

/// A single proposed defect: apply `mutator` at instruction
/// `instruction_index` of the function with index `function_index`.
///
/// A mutation is a value, not a reference into any module. It must only be
/// applied to a body equal to the one whose scan produced it; applying it
/// requires a fresh copy of the original module.
#[derive(Clone, Copy, PartialEq, Eq, Structural, Debug)]
pub struct Mutation {
    pub mutator: MutatorOp,
    pub function_index: usize,
    pub instruction_index: usize,
}

/// The mutation's indices are in range for the function bodies `bodies`, and
/// its operator only writes representable instructions.
pub open spec fn mutation_valid(m: Mutation, bodies: Seq<Seq<Instr>>) -> bool {
    &&& m.function_index < bodies.len()
    &&& m.instruction_index < bodies[m.function_index as int].len()
    &&& op_writes_concrete(m.mutator)
}

/// The function bodies of the mutant that applying `m` to a module with the
/// bodies `bodies` produces: a function of the mutation and the original
/// bodies alone, whatever other mutations exist.
pub open spec fn mutant_bodies(m: Mutation, bodies: Seq<Seq<Instr>>) -> Seq<Seq<Instr>> {
    bodies.update(
        m.function_index as int,
        apply_to_body(m.mutator, bodies[m.function_index as int], m.instruction_index as int),
    )
}

/// Isolation: the mutant derived for a mutation is a function of that
/// mutation and the original bodies alone. Which other mutations exist, or
/// where the mutation stands in either evaluation order, cannot affect the
/// module it produces, because every application starts from a fresh copy of
/// the original bodies.
pub proof fn lemma_mutant_isolation(
    ms1: Seq<Mutation>,
    ms2: Seq<Mutation>,
    bodies: Seq<Seq<Instr>>,
    i: int,
    j: int,
)
    requires
        0 <= i < ms1.len(),
        0 <= j < ms2.len(),
        ms1[i] == ms2[j],
    ensures
        mutant_bodies(ms1[i], bodies) == mutant_bodies(ms2[j], bodies),
{
}

impl Mutation {
    /// Applies exactly this mutation to `module`, rewriting the instruction
    /// at its recorded function and instruction index as the operator's rule
    /// defines; the function name table is left as it was, so function
    /// indices stay stable across the mutation. The module must be a fresh
    /// copy whose bodies still are the ones the mutation was generated from;
    /// in particular the indices must be in range.
    pub fn perform(&self, module: &mut Module)
        requires
            mutation_valid(*self, module_bodies(*old(module))),
        ensures
            module_bodies(*final(module)) == mutant_bodies(*self, module_bodies(*old(module))),
            module_has_names(*final(module)) == module_has_names(*old(module)),
            module_name_entries(*final(module)) == module_name_entries(*old(module)),
    {
        let f = self.function_index;
        let i = self.instruction_index;
        match &self.mutator {
            MutatorOp::Swap(s) => {
                set_instr(module, f, i, &s.replacement_instruction);
            },
            MutatorOp::SetCancelling(_) => {
                let ins = instr_at(module, f, i);
                if ins.check_assignment() {
                    set_instr(module, f, i, &Instr::Discard);
                } else if ins.check_store() {
                    set_instr(module, f, i, &Instr::Discard);
                    insert_instr(module, f, i, &Instr::Discard);
                    proof {
                        assert(module_bodies(*module) =~= mutant_bodies(
                            *self,
                            module_bodies(*old(module)),
                        ));
                    }
                } else {
                    proof {
                        assert(module_bodies(*module) =~= mutant_bodies(
                            *self,
                            module_bodies(*old(module)),
                        ));
                    }
                }
            },
            MutatorOp::IfConditionToFalse(_) => {
                set_instr(module, f, i, &Instr::Discard);
            },
        }
    }
}

} // verus!

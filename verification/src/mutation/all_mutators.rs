//! The fixed, ordered operator catalog.

use vstd::prelude::*;

use crate::instr::{is_concrete, Instr};
use crate::mutation::if_condition_to_false_mutator::IfConditionToFalseMutator;
use crate::mutation::instruction_swapping_mutator::InstructionSwappingMutator;
use crate::mutation::mutator::{op_writes_concrete, MutatorOp};
use crate::mutation::set_cancelling_mutator::SetCancellingMutator;

verus! {

/// The swap operator that replaces `a` by `b`.
pub open spec fn swap(a: Instr, b: Instr) -> MutatorOp {
    MutatorOp::Swap(
        (InstructionSwappingMutator { original_instruction: a, replacement_instruction: b }),
    )
}

/// The catalog, in the order in which operators scan each candidate body:
/// relational-boundary swaps (both directions of each pair, for unsigned and
/// signed comparisons at both integer widths, and for floating-point equality
/// and ordering), arithmetic and logical swaps, rounding swaps, then the
/// set-cancelling and conditional-suppression operators.
pub open spec fn catalog() -> Seq<MutatorOp> {
    seq![
        swap(Instr::I32GeU, Instr::I32GtU),
        swap(Instr::I32LeU, Instr::I32LtU),
        swap(Instr::I32GtU, Instr::I32GeU),
        swap(Instr::I32LtU, Instr::I32LeU),
        swap(Instr::I32GeS, Instr::I32GtS),
        swap(Instr::I32LeS, Instr::I32LtS),
        swap(Instr::I32GtS, Instr::I32GeS),
        swap(Instr::I32LtS, Instr::I32LeS),
        swap(Instr::I32Eq, Instr::I32Ne),
        swap(Instr::I32Ne, Instr::I32Eq),
        swap(Instr::I32Add, Instr::I32Sub),
        swap(Instr::I32Sub, Instr::I32Add),
        swap(Instr::I32Add, Instr::I32Mul),
        swap(Instr::I32Mul, Instr::I32Add),
        swap(Instr::I32And, Instr::I32Or),
        swap(Instr::I32Or, Instr::I32And),
        swap(Instr::I64GeU, Instr::I64GtU),
        swap(Instr::I64LeU, Instr::I64LtU),
        swap(Instr::I64GtU, Instr::I64GeU),
        swap(Instr::I64LtU, Instr::I64LeU),
        swap(Instr::I64GeS, Instr::I64GtS),
        swap(Instr::I64LeS, Instr::I64LtS),
        swap(Instr::I64GtS, Instr::I64GeS),
        swap(Instr::I64LtS, Instr::I64LeS),
        swap(Instr::I64Eq, Instr::I64Ne),
        swap(Instr::I64Ne, Instr::I64Eq),
        swap(Instr::I64Add, Instr::I64Sub),
        swap(Instr::I64Sub, Instr::I64Add),
        swap(Instr::I64Add, Instr::I64Mul),
        swap(Instr::I64Mul, Instr::I64Add),
        swap(Instr::I64And, Instr::I64Or),
        swap(Instr::I64Or, Instr::I64And),
        swap(Instr::F32Ge, Instr::F32Gt),
        swap(Instr::F32Gt, Instr::F32Ge),
        swap(Instr::F32Eq, Instr::F32Ne),
        swap(Instr::F32Ne, Instr::F32Eq),
        swap(Instr::F32Add, Instr::F32Sub),
        swap(Instr::F32Sub, Instr::F32Add),
        swap(Instr::F32Add, Instr::F32Mul),
        swap(Instr::F32Mul, Instr::F32Add),
        swap(Instr::F32Ceil, Instr::F32Floor),
        swap(Instr::F32Floor, Instr::F32Ceil),
        swap(Instr::F64Ge, Instr::F64Gt),
        swap(Instr::F64Gt, Instr::F64Ge),
        swap(Instr::F64Eq, Instr::F64Ne),
        swap(Instr::F64Ne, Instr::F64Eq),
        swap(Instr::F64Add, Instr::F64Sub),
        swap(Instr::F64Sub, Instr::F64Add),
        swap(Instr::F64Add, Instr::F64Mul),
        swap(Instr::F64Mul, Instr::F64Add),
        swap(Instr::F64Ceil, Instr::F64Floor),
        swap(Instr::F64Floor, Instr::F64Ceil),
        MutatorOp::SetCancelling(SetCancellingMutator),
        MutatorOp::IfConditionToFalse(IfConditionToFalseMutator),
    ]
}

/// Builds the swap operator that replaces `a` by `b`.
fn swap_entry(a: Instr, b: Instr) -> (r: MutatorOp)
    ensures
        r == swap(a, b),
{
    MutatorOp::Swap(InstructionSwappingMutator { original_instruction: a, replacement_instruction: b })
}

/// Appends a catalog entry, keeping the fact that every entry so far only
/// writes representable instructions.
fn push_op(ops: &mut Vec<MutatorOp>, op: MutatorOp)
    requires
        op_writes_concrete(op),
        forall|k: int| 0 <= k < old(ops)@.len() ==> op_writes_concrete(#[trigger] old(ops)@[k]),
    ensures
        final(ops)@ == old(ops)@.push(op),
        forall|k: int| 0 <= k < final(ops)@.len() ==> op_writes_concrete(#[trigger] final(ops)@[k]),
{
    ops.push(op);
}

/// Builds the catalog as a fresh value. The order is fixed, so two calls
/// yield equal catalogs, and every operator in it only writes representable
/// instructions.
pub fn all_mutators() -> (r: Vec<MutatorOp>)
    ensures
        r@ == catalog(),
        forall|k: int| 0 <= k < r@.len() ==> op_writes_concrete(#[trigger] r@[k]),
{
    let mut ops: Vec<MutatorOp> = Vec::new();
    push_op(&mut ops, swap_entry(Instr::I32GeU, Instr::I32GtU));
    push_op(&mut ops, swap_entry(Instr::I32LeU, Instr::I32LtU));
    push_op(&mut ops, swap_entry(Instr::I32GtU, Instr::I32GeU));
    push_op(&mut ops, swap_entry(Instr::I32LtU, Instr::I32LeU));
    push_op(&mut ops, swap_entry(Instr::I32GeS, Instr::I32GtS));
    push_op(&mut ops, swap_entry(Instr::I32LeS, Instr::I32LtS));
    push_op(&mut ops, swap_entry(Instr::I32GtS, Instr::I32GeS));
    push_op(&mut ops, swap_entry(Instr::I32LtS, Instr::I32LeS));
    push_op(&mut ops, swap_entry(Instr::I32Eq, Instr::I32Ne));
    push_op(&mut ops, swap_entry(Instr::I32Ne, Instr::I32Eq));
    push_op(&mut ops, swap_entry(Instr::I32Add, Instr::I32Sub));
    push_op(&mut ops, swap_entry(Instr::I32Sub, Instr::I32Add));
    push_op(&mut ops, swap_entry(Instr::I32Add, Instr::I32Mul));
    push_op(&mut ops, swap_entry(Instr::I32Mul, Instr::I32Add));
    push_op(&mut ops, swap_entry(Instr::I32And, Instr::I32Or));
    push_op(&mut ops, swap_entry(Instr::I32Or, Instr::I32And));
    push_op(&mut ops, swap_entry(Instr::I64GeU, Instr::I64GtU));
    push_op(&mut ops, swap_entry(Instr::I64LeU, Instr::I64LtU));
    push_op(&mut ops, swap_entry(Instr::I64GtU, Instr::I64GeU));
    push_op(&mut ops, swap_entry(Instr::I64LtU, Instr::I64LeU));
    push_op(&mut ops, swap_entry(Instr::I64GeS, Instr::I64GtS));
    push_op(&mut ops, swap_entry(Instr::I64LeS, Instr::I64LtS));
    push_op(&mut ops, swap_entry(Instr::I64GtS, Instr::I64GeS));
    push_op(&mut ops, swap_entry(Instr::I64LtS, Instr::I64LeS));
    push_op(&mut ops, swap_entry(Instr::I64Eq, Instr::I64Ne));
    push_op(&mut ops, swap_entry(Instr::I64Ne, Instr::I64Eq));
    push_op(&mut ops, swap_entry(Instr::I64Add, Instr::I64Sub));
    push_op(&mut ops, swap_entry(Instr::I64Sub, Instr::I64Add));
    push_op(&mut ops, swap_entry(Instr::I64Add, Instr::I64Mul));
    push_op(&mut ops, swap_entry(Instr::I64Mul, Instr::I64Add));
    push_op(&mut ops, swap_entry(Instr::I64And, Instr::I64Or));
    push_op(&mut ops, swap_entry(Instr::I64Or, Instr::I64And));
    push_op(&mut ops, swap_entry(Instr::F32Ge, Instr::F32Gt));
    push_op(&mut ops, swap_entry(Instr::F32Gt, Instr::F32Ge));
    push_op(&mut ops, swap_entry(Instr::F32Eq, Instr::F32Ne));
    push_op(&mut ops, swap_entry(Instr::F32Ne, Instr::F32Eq));
    push_op(&mut ops, swap_entry(Instr::F32Add, Instr::F32Sub));
    push_op(&mut ops, swap_entry(Instr::F32Sub, Instr::F32Add));
    push_op(&mut ops, swap_entry(Instr::F32Add, Instr::F32Mul));
    push_op(&mut ops, swap_entry(Instr::F32Mul, Instr::F32Add));
    push_op(&mut ops, swap_entry(Instr::F32Ceil, Instr::F32Floor));
    push_op(&mut ops, swap_entry(Instr::F32Floor, Instr::F32Ceil));
    push_op(&mut ops, swap_entry(Instr::F64Ge, Instr::F64Gt));
    push_op(&mut ops, swap_entry(Instr::F64Gt, Instr::F64Ge));
    push_op(&mut ops, swap_entry(Instr::F64Eq, Instr::F64Ne));
    push_op(&mut ops, swap_entry(Instr::F64Ne, Instr::F64Eq));
    push_op(&mut ops, swap_entry(Instr::F64Add, Instr::F64Sub));
    push_op(&mut ops, swap_entry(Instr::F64Sub, Instr::F64Add));
    push_op(&mut ops, swap_entry(Instr::F64Add, Instr::F64Mul));
    push_op(&mut ops, swap_entry(Instr::F64Mul, Instr::F64Add));
    push_op(&mut ops, swap_entry(Instr::F64Ceil, Instr::F64Floor));
    push_op(&mut ops, swap_entry(Instr::F64Floor, Instr::F64Ceil));
    push_op(&mut ops, MutatorOp::SetCancelling(SetCancellingMutator));
    push_op(&mut ops, MutatorOp::IfConditionToFalse(IfConditionToFalseMutator));
    proof {
        assert(ops@ =~= catalog());
    }
    ops
}

} // verus!

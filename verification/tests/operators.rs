//! Operator-level tests: scanning bodies for mutation sites and rewriting
//! them, both on plain instruction lists and through a decoded module.

use parity_wasm::builder::{FuncBodyBuilder, Identity, ModuleBuilder};
use parity_wasm::elements::{Instruction, Instructions};

use wasmut::instr::Instr;
use wasmut::mutation::i32geu_to_gtu_mutator::I32GeUToGtUMutator;
use wasmut::mutation::if_condition_to_false_mutator::IfConditionToFalseMutator;
use wasmut::mutation::instruction_swapping_mutator::InstructionSwappingMutator;
use wasmut::mutation::set_cancelling_mutator::SetCancellingMutator;
use wasmut::mutation::{find_mutations, Mutation};

fn geu_to_gtu() -> InstructionSwappingMutator {
    InstructionSwappingMutator {
        original_instruction: Instr::I32GeU,
        replacement_instruction: Instr::I32GtU,
    }
}

fn module_with_one_body(
    instrs: Vec<Instruction>,
) -> parity_wasm::elements::Module {
    let body = FuncBodyBuilder::with_callback(Identity)
        .with_instructions(Instructions::new(instrs))
        .build();
    ModuleBuilder::with_callback(Identity).function().with_body(body).build().build()
}

fn module_with_two_bodies(
    first: Vec<Instruction>,
    second: Vec<Instruction>,
) -> parity_wasm::elements::Module {
    let first_body = FuncBodyBuilder::with_callback(Identity)
        .with_instructions(Instructions::new(first))
        .build();
    let second_body = FuncBodyBuilder::with_callback(Identity)
        .with_instructions(Instructions::new(second))
        .build();
    ModuleBuilder::with_callback(Identity)
        .function()
        .with_body(first_body)
        .build()
        .function()
        .with_body(second_body)
        .build()
        .build()
}

fn body_elements(module: &parity_wasm::elements::Module, f: usize) -> Vec<Instruction> {
    module.code_section().unwrap().bodies()[f].code().elements().to_vec()
}

#[test]
fn instruction_swapping_mutator_perform_writes_new_instruction_at_index_0() {
    let subject = geu_to_gtu();
    let mut body = vec![Instr::I32GeU];

    subject.perform(&mut body, 0);

    assert_eq!(body, vec![Instr::I32GtU]);
}

#[test]
fn instruction_swapping_mutator_perform_writes_new_instruction_at_index_1() {
    let subject = geu_to_gtu();
    let mut body = vec![Instr::I32Add, Instr::I32GeU];

    subject.perform(&mut body, 1);

    assert_eq!(body, vec![Instr::I32Add, Instr::I32GtU]);
}

#[test]
fn instruction_swapping_mutator_find_does_not_identify_mutation_in_empty_function() {
    let subject = geu_to_gtu();
    let body: Vec<Instr> = vec![];

    let result = subject.find(&body, 0);

    assert_eq!(result.len(), 0);
}

#[test]
fn instruction_swapping_mutator_find_does_not_identify_mutation_in_function_with_no_matching_instruction(
) {
    let subject = geu_to_gtu();
    let body = vec![Instr::I32Add];

    let result = subject.find(&body, 0);

    assert_eq!(result.len(), 0);
}

#[test]
fn find_identifies_mutation_at_index_0() {
    let subject = geu_to_gtu();
    let mut module = module_with_one_body(vec![Instruction::I32GeU]);

    let result = subject.find(&vec![Instr::I32GeU], 0);

    result[0].perform(&mut module);
    assert_eq!(body_elements(&module, 0), vec![Instruction::I32GtU]);
}

#[test]
fn instruction_swapping_mutator_find_identifies_mutation_at_index_1() {
    let subject = geu_to_gtu();
    let mut module = module_with_one_body(vec![Instruction::I32Add, Instruction::I32GeU]);

    let result = subject.find(&vec![Instr::I32Add, Instr::I32GeU], 0);

    result[0].perform(&mut module);
    assert_eq!(body_elements(&module, 0), vec![Instruction::I32Add, Instruction::I32GtU]);
}

#[test]
fn instruction_swapping_mutator_find_identifies_mutation_at_function_index_1() {
    let subject = geu_to_gtu();
    let mut module = module_with_two_bodies(vec![], vec![Instruction::I32GeU]);

    let result = subject.find(&vec![Instr::I32GeU], 1);

    result[0].perform(&mut module);
    assert_eq!(body_elements(&module, 1), vec![Instruction::I32GtU]);
}

#[test]
fn instruction_swapping_mutator_find_identifies_two_mutations() {
    let subject = geu_to_gtu();
    let mut module = module_with_one_body(vec![Instruction::I32GeU, Instruction::I32GeU]);

    let result = subject.find(&vec![Instr::I32GeU, Instr::I32GeU], 0);

    for mutation in result {
        mutation.perform(&mut module);
    }
    assert_eq!(body_elements(&module, 0), vec![Instruction::I32GtU, Instruction::I32GtU]);
}

#[test]
fn set_cancelling_mutator_perform_writes_new_instruction_at_index_0() {
    let subject = SetCancellingMutator;
    let mut body = vec![Instr::SetLocal(0)];

    subject.perform(&mut body, 0);

    assert_eq!(body, vec![Instr::Discard]);
}

#[test]
fn set_cancelling_mutator_perform_writes_new_instruction_at_index_1() {
    let subject = SetCancellingMutator;
    let mut body = vec![Instr::GetLocal(1), Instr::SetLocal(0)];

    subject.perform(&mut body, 1);

    assert_eq!(body, vec![Instr::GetLocal(1), Instr::Discard]);
}

#[test]
fn set_cancelling_mutator_perform_inserts_drop_instruction_where_required() {
    let subject = SetCancellingMutator;
    let mut body = vec![Instr::GetLocal(0), Instr::I32Store(0, 0), Instr::GetLocal(0)];

    subject.perform(&mut body, 1);

    assert_eq!(
        body,
        vec![Instr::GetLocal(0), Instr::Discard, Instr::Discard, Instr::GetLocal(0)],
    );
}

#[test]
fn set_cancelling_mutator_find_does_not_identify_mutation_in_empty_function() {
    let subject = SetCancellingMutator;
    let body: Vec<Instr> = vec![];

    let result = subject.find(&body, 0);

    assert_eq!(result.len(), 0);
}

#[test]
fn set_cancelling_mutator_find_does_not_identify_mutation_in_function_with_no_matching_instruction()
{
    let subject = SetCancellingMutator;
    let body = vec![Instr::I32Add];

    let result = subject.find(&body, 0);

    assert_eq!(result.len(), 0);
}

#[test]
fn set_cancelling_find_identifies_mutation_index_0_set_local() {
    let subject = SetCancellingMutator;
    let mut module = module_with_one_body(vec![Instruction::SetLocal(0)]);

    let result = subject.find(&vec![Instr::SetLocal(0)], 0);

    result[0].perform(&mut module);
    assert_eq!(body_elements(&module, 0), vec![Instruction::Drop]);
}

#[test]
fn set_cancelling_find_identifies_mutation_index_0_set_global() {
    let subject = SetCancellingMutator;
    let mut module = module_with_one_body(vec![Instruction::SetGlobal(0)]);

    let result = subject.find(&vec![Instr::SetGlobal(0)], 0);

    result[0].perform(&mut module);
    assert_eq!(body_elements(&module, 0), vec![Instruction::Drop]);
}

#[test]
fn set_cancelling_find_identifies_mutation_index_0_i32_store() {
    let subject = SetCancellingMutator;
    let mut module = module_with_one_body(vec![Instruction::I32Store(0, 0)]);

    let result = subject.find(&vec![Instr::I32Store(0, 0)], 0);

    result[0].perform(&mut module);
    assert_eq!(body_elements(&module, 0), vec![Instruction::Drop, Instruction::Drop]);
}

#[test]
fn set_cancelling_find_identifies_mutation_index_0_i64_store() {
    let subject = SetCancellingMutator;
    let mut module = module_with_one_body(vec![Instruction::I64Store(0, 0)]);

    let result = subject.find(&vec![Instr::I64Store(0, 0)], 0);

    result[0].perform(&mut module);
    assert_eq!(body_elements(&module, 0), vec![Instruction::Drop, Instruction::Drop]);
}

#[test]
fn set_cancelling_find_identifies_mutation_index_0_f32_store() {
    let subject = SetCancellingMutator;
    let mut module = module_with_one_body(vec![Instruction::F32Store(0, 0)]);

    let result = subject.find(&vec![Instr::F32Store(0, 0)], 0);

    result[0].perform(&mut module);
    assert_eq!(body_elements(&module, 0), vec![Instruction::Drop, Instruction::Drop]);
}

#[test]
fn set_cancelling_find_identifies_mutation_index_0_f64_store() {
    let subject = SetCancellingMutator;
    let mut module = module_with_one_body(vec![Instruction::F64Store(0, 0)]);

    let result = subject.find(&vec![Instr::F64Store(0, 0)], 0);

    result[0].perform(&mut module);
    assert_eq!(body_elements(&module, 0), vec![Instruction::Drop, Instruction::Drop]);
}

#[test]
fn set_cancelling_mutator_find_identifies_mutation_at_index_1() {
    let subject = SetCancellingMutator;
    let mut module = module_with_one_body(vec![Instruction::I32Add, Instruction::SetLocal(1)]);

    let result = subject.find(&vec![Instr::I32Add, Instr::SetLocal(1)], 0);

    result[0].perform(&mut module);
    assert_eq!(body_elements(&module, 0), vec![Instruction::I32Add, Instruction::Drop]);
}

#[test]
fn set_cancelling_mutator_find_identifies_mutation_at_function_index_1() {
    let subject = SetCancellingMutator;
    let mut module = module_with_two_bodies(vec![], vec![Instruction::SetLocal(2)]);

    let result = subject.find(&vec![Instr::SetLocal(2)], 1);

    result[0].perform(&mut module);
    assert_eq!(body_elements(&module, 1), vec![Instruction::Drop]);
}

#[test]
fn set_cancelling_mutator_find_identifies_two_mutations() {
    let subject = SetCancellingMutator;
    let mut module = module_with_one_body(vec![
        Instruction::SetLocal(0),
        Instruction::SetLocal(1),
    ]);

    let result = subject.find(&vec![Instr::SetLocal(0), Instr::SetLocal(1)], 0);

    for mutation in result {
        mutation.perform(&mut module);
    }
    assert_eq!(body_elements(&module, 0), vec![Instruction::Drop, Instruction::Drop]);
}

#[test]
fn if_condition_to_false_mutator_perform_writes_new_instruction_at_index_0() {
    let subject = IfConditionToFalseMutator;
    let mut body = vec![Instr::BrIf(0)];

    subject.perform(&mut body, 0);

    assert_eq!(body, vec![Instr::Discard]);
}

#[test]
fn if_condition_to_false_mutator_perform_writes_new_instruction_at_index_1() {
    let subject = IfConditionToFalseMutator;
    let mut body = vec![Instr::GetLocal(1), Instr::BrIf(0)];

    subject.perform(&mut body, 1);

    assert_eq!(body, vec![Instr::GetLocal(1), Instr::Discard]);
}

#[test]
fn if_condition_to_false_mutator_perform_inserts_drop_instruction_where_required() {
    let subject = IfConditionToFalseMutator;
    let mut body = vec![Instr::GetLocal(0), Instr::BrIf(0), Instr::GetLocal(0)];

    subject.perform(&mut body, 1);

    assert_eq!(body, vec![Instr::GetLocal(0), Instr::Discard, Instr::GetLocal(0)]);
}

#[test]
fn if_condition_to_false_mutator_find_does_not_identify_mutation_in_empty_function() {
    let subject = IfConditionToFalseMutator;
    let body: Vec<Instr> = vec![];

    let result = subject.find(&body, 0);

    assert_eq!(result.len(), 0);
}

#[test]
fn if_condition_to_false_mutator_find_does_not_identify_mutation_in_function_with_no_matching_instruction(
) {
    let subject = IfConditionToFalseMutator;
    let body = vec![Instr::I32Add];

    let result = subject.find(&body, 0);

    assert_eq!(result.len(), 0);
}

#[test]
fn find_identifies_mutation_index_0() {
    let subject = IfConditionToFalseMutator;
    let mut module = module_with_one_body(vec![Instruction::BrIf(0)]);

    let result = subject.find(&vec![Instr::BrIf(0)], 0);

    result[0].perform(&mut module);
    assert_eq!(body_elements(&module, 0), vec![Instruction::Drop]);
}

#[test]
fn if_condition_to_false_mutator_find_identifies_mutation_at_index_1() {
    let subject = IfConditionToFalseMutator;
    let mut module = module_with_one_body(vec![Instruction::I32Add, Instruction::BrIf(0)]);

    let result = subject.find(&vec![Instr::I32Add, Instr::BrIf(0)], 0);

    result[0].perform(&mut module);
    assert_eq!(body_elements(&module, 0), vec![Instruction::I32Add, Instruction::Drop]);
}

#[test]
fn if_condition_to_false_mutator_find_identifies_mutation_at_function_index_1() {
    let subject = IfConditionToFalseMutator;
    let mut module = module_with_two_bodies(vec![], vec![Instruction::BrIf(0)]);

    let result = subject.find(&vec![Instr::BrIf(0)], 1);

    result[0].perform(&mut module);
    assert_eq!(body_elements(&module, 1), vec![Instruction::Drop]);
}

#[test]
fn if_condition_to_false_mutator_find_identifies_two_mutations() {
    let subject = IfConditionToFalseMutator;
    let mut module = module_with_one_body(vec![Instruction::BrIf(0), Instruction::BrIf(1)]);

    let result = subject.find(&vec![Instr::BrIf(0), Instr::BrIf(1)], 0);

    for mutation in result.iter().rev() {
        mutation.perform(&mut module);
    }
    assert_eq!(body_elements(&module, 0), vec![Instruction::Drop, Instruction::Drop]);
}

#[test]
fn i32geu_to_gtu_mutator_perform_writes_new_instruction_at_index_0() {
    let subject = I32GeUToGtUMutator::create();
    let mut body = vec![Instr::I32GeU];

    subject.perform(&mut body, 0);

    assert_eq!(body, vec![Instr::I32GtU]);
}

#[test]
fn i32geu_to_gtu_mutator_find_identifies_mutation() {
    let body = vec![Instr::I32Add, Instr::I32GeU];

    let result = I32GeUToGtUMutator::find(&body, 3);

    assert_eq!(result.len(), 1);
    assert_eq!(result[0].function_index, 3);
    assert_eq!(result[0].instruction_index, 1);
}

#[test]
fn single_swap_catalog_scenario() {
    // A body whose first instruction only produces a condition and whose
    // second is the unsigned >=, scanned by a catalog holding only the
    // GeU -> GtU swap: exactly one mutation, at instruction index 1, and
    // applying it swaps just that instruction.
    let subject = geu_to_gtu();
    let mut body = vec![Instr::GetLocal(0), Instr::I32GeU];

    let result = subject.find(&body, 0);

    assert_eq!(result.len(), 1);
    assert_eq!(result[0].instruction_index, 1);
    subject.perform(&mut body, 1);
    assert_eq!(body, vec![Instr::GetLocal(0), Instr::I32GtU]);
}

#[test]
fn generation_is_idempotent() {
    let bodies = vec![
        vec![Instr::I32GeU, Instr::SetLocal(0), Instr::BrIf(0)],
        vec![Instr::I32Add, Instr::I32Store(0, 0)],
    ];
    let indices = vec![0, 1];

    let first: Vec<Mutation> = find_mutations(&indices, &bodies);
    let second: Vec<Mutation> = find_mutations(&indices, &bodies);

    assert_eq!(first, second);
}

#[test]
fn independent_mutants_do_not_interfere() {
    // Two different mutations from one body, each applied to its own fresh
    // module copy: the mutant produced for the first is the same whether or
    // not the second was ever applied anywhere.
    let instrs = vec![Instruction::I32GeU, Instruction::SetLocal(0)];
    let body = vec![Instr::I32GeU, Instr::SetLocal(0)];
    let swap_mutation = geu_to_gtu().find(&body, 0)[0];
    let cancel_mutation = SetCancellingMutator.find(&body, 0)[0];

    let mut first_fresh = module_with_one_body(instrs.clone());
    swap_mutation.perform(&mut first_fresh);

    let mut other = module_with_one_body(instrs.clone());
    cancel_mutation.perform(&mut other);

    let mut second_fresh = module_with_one_body(instrs.clone());
    swap_mutation.perform(&mut second_fresh);

    assert_eq!(body_elements(&first_fresh, 0), body_elements(&second_fresh, 0));
    assert_eq!(
        body_elements(&first_fresh, 0),
        vec![Instruction::I32GtU, Instruction::SetLocal(0)],
    );
    assert_eq!(body_elements(&other, 0), vec![Instruction::I32GeU, Instruction::Drop]);
}

#[test]
fn describe_names_operators() {
    assert_eq!(SetCancellingMutator.describe(), "SetCancelling");
    let mutation = SetCancellingMutator.find(&vec![Instr::SetLocal(0)], 0)[0];
    assert_eq!(mutation.mutator.describe(), "SetCancelling");
}

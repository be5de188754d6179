//! The trusted boundary to the module codec.
//!
//! The binary container format is out of scope here: decoding and encoding are
//! done by the `parity_wasm` crate, and a decoded module stays an opaque
//! value. What the mutation logic needs of it — how many function bodies it
//! has, which instruction stands where, and the debug name table — is exposed
//! through small trusted wrappers whose contracts speak about two uninterpreted
//! observations: [`module_bodies`] (the instruction sequences of the code
//! section, each instruction read through the variant mapping of `instr_of`)
//! and [`module_name_entries`] (the function name table in ascending index
//! order). The bytes-level observations `decoded_*` name the same data as a
//! function of the input buffer, which is what makes re-decoding the same
//! buffer for every mutant yield the same module.

use vstd::prelude::*;

use parity_wasm::elements::{Instruction, Module};

use crate::engine::EngineError;
use crate::instr::{is_concrete, Instr};

verus! {

#[verifier::external_type_specification]
#[verifier::external_body]
pub struct ExModule(parity_wasm::elements::Module);

#[verifier::external_type_specification]
#[verifier::external_body]
pub struct ExInstruction(parity_wasm::elements::Instruction);

/// One entry of a module's function name table: the function's index and its
/// raw (possibly mangled) declared name.
#[derive(Debug)]
pub struct NameEntry {
    pub index: u32,
    pub name: String,
}

impl NameEntry {
    /// Pairs a function index with its raw declared name.
    pub fn new(index: u32, name: String) -> (r: NameEntry)
        ensures
            r.index == index,
            r.name == name,
    {
        NameEntry { index, name }
    }
}

/// The instruction sequence of each function body of the module's code
/// section, in function-index order; instructions outside the mutation model
/// appear as `Instr::Other`.
pub uninterp spec fn module_bodies(m: Module) -> Seq<Seq<Instr>>;

/// Whether the module carries a parsed function name table.
pub uninterp spec fn module_has_names(m: Module) -> bool;

/// The function name table's entries, in ascending function-index order.
pub uninterp spec fn module_name_entries(m: Module) -> Seq<NameEntry>;

/// Whether `bytes` decodes to a module (including its name custom sections).
pub uninterp spec fn decode_ok(bytes: Seq<u8>) -> bool;

/// The function bodies of the module that `bytes` decodes to.
pub uninterp spec fn decoded_bodies(bytes: Seq<u8>) -> Seq<Seq<Instr>>;

/// Whether the module that `bytes` decodes to carries a function name table.
pub uninterp spec fn decoded_has_names(bytes: Seq<u8>) -> bool;

/// The name-table entries of the module that `bytes` decodes to.
pub uninterp spec fn decoded_name_entries(bytes: Seq<u8>) -> Seq<NameEntry>;

/// Whether re-encoding the module succeeds: a function of the module value
/// alone.
pub uninterp spec fn encode_ok(m: Module) -> bool;

/// Whether `bytes` decode and the decoded module immediately re-encodes:
/// decoding is deterministic and encoding success depends on the module value
/// alone, so this is a function of the bytes alone.
pub uninterp spec fn reencode_ok(bytes: Seq<u8>) -> bool;

/// Relies on `parity_wasm::deserialize_buffer` and `Module::parse_names`:
/// decoding is a pure function of the bytes, so equal buffers decode to
/// modules with equal observations.
#[verifier::external_body]
pub(crate) fn decode_module(bytes: &[u8]) -> (r: Result<Module, EngineError>)
    ensures
        r is Ok <==> decode_ok(bytes@),
        r matches Err(e) ==> e == EngineError::BaselineInvalid,
        r matches Ok(m) ==> module_bodies(m) == decoded_bodies(bytes@)
            && module_has_names(m) == decoded_has_names(bytes@)
            && module_name_entries(m) == decoded_name_entries(bytes@)
            && encode_ok(m) == reencode_ok(bytes@),
        r is Err ==> !reencode_ok(bytes@),
{
    match parity_wasm::deserialize_buffer::<parity_wasm::elements::Module>(bytes) {
        Ok(module) => match module.parse_names() {
            Ok(parsed) => Ok(parsed),
            Err(_) => Err(EngineError::BaselineInvalid),
        },
        Err(_) => Err(EngineError::BaselineInvalid),
    }
}

/// Relies on `Module::to_bytes` (serialization): whether it succeeds depends
/// on the module value alone, which `encode_ok` names, and it writes out
/// exactly the sections the module holds, so if the result decodes again, it
/// decodes to the same function bodies.
#[verifier::external_body]
pub(crate) fn encode_module(m: Module) -> (r: Result<Vec<u8>, ()>)
    ensures
        r is Ok <==> encode_ok(m),
        r matches Ok(bytes) ==> (decode_ok(bytes@) ==> decoded_bodies(bytes@) == module_bodies(
            m,
        )),
{
    match m.to_bytes() {
        Ok(bytes) => Ok(bytes),
        Err(_) => Err(()),
    }
}

/// Relies on `Module::names_section` and `NameSection::functions`: whether a
/// parsed function name table is present.
#[verifier::external_body]
pub(crate) fn names_present(m: &Module) -> (r: bool)
    ensures
        r == module_has_names(*m),
{
    match m.names_section() {
        Some(section) => section.functions().is_some(),
        None => false,
    }
}

/// Relies on `FunctionNameSubsection::names` and `IndexMap::iter`, which
/// yields the `(index, name)` entries in ascending index order.
#[verifier::external_body]
pub(crate) fn name_entries(m: &Module) -> (r: Vec<NameEntry>)
    requires
        module_has_names(*m),
    ensures
        r@ == module_name_entries(*m),
{
    m.names_section().unwrap().functions().unwrap().names().iter().map(
        |entry: (u32, &String)| NameEntry::new(entry.0, entry.1.clone()),
    ).collect()
}

/// Relies on `Module::code_section` and `CodeSection::bodies`: the number of
/// function bodies (zero when there is no code section).
#[verifier::external_body]
pub(crate) fn function_count(m: &Module) -> (r: usize)
    ensures
        r == module_bodies(*m).len(),
{
    match m.code_section() {
        Some(section) => section.bodies().len(),
        None => 0,
    }
}

/// Relies on `FuncBody::code` and `Instructions::elements`: the instruction
/// count of one function body.
#[verifier::external_body]
pub(crate) fn body_len(m: &Module, f: usize) -> (r: usize)
    requires
        f < module_bodies(*m).len(),
    ensures
        r == module_bodies(*m)[f as int].len(),
{
    m.code_section().unwrap().bodies()[f].code().elements().len()
}

/// Relies on `Instructions::elements`: reads one instruction of one function
/// body, through the variant mapping of `instr_of`.
#[verifier::external_body]
pub(crate) fn instr_at(m: &Module, f: usize, i: usize) -> (r: Instr)
    requires
        f < module_bodies(*m).len(),
        i < module_bodies(*m)[f as int].len(),
    ensures
        r == module_bodies(*m)[f as int][i as int],
{
    instr_of(&m.code_section().unwrap().bodies()[f].code().elements()[i])
}

/// Relies on `Instructions::elements_mut`: overwrites one instruction slot of
/// one function body, through the variant mapping of `to_parity`. Only the
/// code section is touched, so the name table is unchanged.
#[verifier::external_body]
pub(crate) fn set_instr(m: &mut Module, f: usize, i: usize, ins: &Instr)
    requires
        f < module_bodies(*old(m)).len(),
        i < module_bodies(*old(m))[f as int].len(),
        is_concrete(*ins),
    ensures
        module_bodies(*final(m)) == module_bodies(*old(m)).update(
            f as int,
            module_bodies(*old(m))[f as int].update(i as int, *ins),
        ),
        module_has_names(*final(m)) == module_has_names(*old(m)),
        module_name_entries(*final(m)) == module_name_entries(*old(m)),
{
    m.code_section_mut().unwrap().bodies_mut()[f].code_mut().elements_mut()[i] = to_parity(ins);
}

/// Relies on `Vec::insert` on `Instructions::elements_mut`: inserts one
/// instruction before position `i` of one function body, shifting the rest
/// one index forward. Only the code section is touched, so the name table is
/// unchanged.
#[verifier::external_body]
pub(crate) fn insert_instr(m: &mut Module, f: usize, i: usize, ins: &Instr)
    requires
        f < module_bodies(*old(m)).len(),
        i <= module_bodies(*old(m))[f as int].len(),
        is_concrete(*ins),
    ensures
        module_has_names(*final(m)) == module_has_names(*old(m)),
        module_name_entries(*final(m)) == module_name_entries(*old(m)),
        module_bodies(*final(m)) == module_bodies(*old(m)).update(
            f as int,
            module_bodies(*old(m))[f as int].insert(i as int, *ins),
        ),
{
    m.code_section_mut().unwrap().bodies_mut()[f].code_mut().elements_mut().insert(
        i,
        to_parity(ins),
    );
}

/// Relies on matching `parity_wasm::elements::Instruction`: maps each
/// instruction the catalog knows to its like-named model variant, and every
/// other instruction to `Instr::Other`.
#[verifier::external_body]
fn instr_of(i: &parity_wasm::elements::Instruction) -> Instr {
    instr_of_i32_cmp(i)
        .or_else(|| instr_of_i64_cmp(i))
        .or_else(|| instr_of_int_arith(i))
        .or_else(|| instr_of_f32(i))
        .or_else(|| instr_of_f64(i))
        .or_else(|| instr_of_operand(i))
        .unwrap_or(Instr::Other)
}

/// Relies on matching `parity_wasm::elements::Instruction`: the 32-bit
/// integer comparison opcodes, each to its like-named model variant.
#[verifier::external_body]
fn instr_of_i32_cmp(i: &parity_wasm::elements::Instruction) -> Option<Instr> {
    match i {
        Instruction::I32Eq => Some(Instr::I32Eq),
        Instruction::I32Ne => Some(Instr::I32Ne),
        Instruction::I32LtS => Some(Instr::I32LtS),
        Instruction::I32LtU => Some(Instr::I32LtU),
        Instruction::I32GtS => Some(Instr::I32GtS),
        Instruction::I32GtU => Some(Instr::I32GtU),
        Instruction::I32LeS => Some(Instr::I32LeS),
        Instruction::I32LeU => Some(Instr::I32LeU),
        Instruction::I32GeS => Some(Instr::I32GeS),
        Instruction::I32GeU => Some(Instr::I32GeU),
        _ => None,
    }
}

/// Relies on matching `parity_wasm::elements::Instruction`: the 64-bit
/// integer comparison opcodes, each to its like-named model variant.
#[verifier::external_body]
fn instr_of_i64_cmp(i: &parity_wasm::elements::Instruction) -> Option<Instr> {
    match i {
        Instruction::I64Eq => Some(Instr::I64Eq),
        Instruction::I64Ne => Some(Instr::I64Ne),
        Instruction::I64LtS => Some(Instr::I64LtS),
        Instruction::I64LtU => Some(Instr::I64LtU),
        Instruction::I64GtS => Some(Instr::I64GtS),
        Instruction::I64GtU => Some(Instr::I64GtU),
        Instruction::I64LeS => Some(Instr::I64LeS),
        Instruction::I64LeU => Some(Instr::I64LeU),
        Instruction::I64GeS => Some(Instr::I64GeS),
        Instruction::I64GeU => Some(Instr::I64GeU),
        _ => None,
    }
}

/// Relies on matching `parity_wasm::elements::Instruction`: the integer
/// arithmetic and bitwise opcodes of the catalog, each to its like-named
/// model variant.
#[verifier::external_body]
fn instr_of_int_arith(i: &parity_wasm::elements::Instruction) -> Option<Instr> {
    match i {
        Instruction::I32Add => Some(Instr::I32Add),
        Instruction::I32Sub => Some(Instr::I32Sub),
        Instruction::I32Mul => Some(Instr::I32Mul),
        Instruction::I32And => Some(Instr::I32And),
        Instruction::I32Or => Some(Instr::I32Or),
        Instruction::I64Add => Some(Instr::I64Add),
        Instruction::I64Sub => Some(Instr::I64Sub),
        Instruction::I64Mul => Some(Instr::I64Mul),
        Instruction::I64And => Some(Instr::I64And),
        Instruction::I64Or => Some(Instr::I64Or),
        _ => None,
    }
}

/// Relies on matching `parity_wasm::elements::Instruction`: the
/// single-precision comparison, arithmetic and rounding opcodes of the
/// catalog, each to its like-named model variant.
#[verifier::external_body]
fn instr_of_f32(i: &parity_wasm::elements::Instruction) -> Option<Instr> {
    match i {
        Instruction::F32Eq => Some(Instr::F32Eq),
        Instruction::F32Ne => Some(Instr::F32Ne),
        Instruction::F32Gt => Some(Instr::F32Gt),
        Instruction::F32Ge => Some(Instr::F32Ge),
        Instruction::F32Add => Some(Instr::F32Add),
        Instruction::F32Sub => Some(Instr::F32Sub),
        Instruction::F32Mul => Some(Instr::F32Mul),
        Instruction::F32Ceil => Some(Instr::F32Ceil),
        Instruction::F32Floor => Some(Instr::F32Floor),
        _ => None,
    }
}

/// Relies on matching `parity_wasm::elements::Instruction`: the
/// double-precision comparison, arithmetic and rounding opcodes of the
/// catalog, each to its like-named model variant.
#[verifier::external_body]
fn instr_of_f64(i: &parity_wasm::elements::Instruction) -> Option<Instr> {
    match i {
        Instruction::F64Eq => Some(Instr::F64Eq),
        Instruction::F64Ne => Some(Instr::F64Ne),
        Instruction::F64Gt => Some(Instr::F64Gt),
        Instruction::F64Ge => Some(Instr::F64Ge),
        Instruction::F64Add => Some(Instr::F64Add),
        Instruction::F64Sub => Some(Instr::F64Sub),
        Instruction::F64Mul => Some(Instr::F64Mul),
        Instruction::F64Ceil => Some(Instr::F64Ceil),
        Instruction::F64Floor => Some(Instr::F64Floor),
        _ => None,
    }
}

/// Relies on matching `parity_wasm::elements::Instruction`: the
/// operand-carrying instructions of the model (variable accesses, stores, the
/// conditional branch) and the value discard, fields moved as they are.
#[verifier::external_body]
fn instr_of_operand(i: &parity_wasm::elements::Instruction) -> Option<Instr> {
    match i {
        Instruction::GetLocal(n) => Some(Instr::GetLocal(*n)),
        Instruction::SetLocal(n) => Some(Instr::SetLocal(*n)),
        Instruction::SetGlobal(n) => Some(Instr::SetGlobal(*n)),
        Instruction::I32Store(a, o) => Some(Instr::I32Store(*a, *o)),
        Instruction::I64Store(a, o) => Some(Instr::I64Store(*a, *o)),
        Instruction::F32Store(a, o) => Some(Instr::F32Store(*a, *o)),
        Instruction::F64Store(a, o) => Some(Instr::F64Store(*a, *o)),
        Instruction::BrIf(n) => Some(Instr::BrIf(*n)),
        Instruction::Drop => Some(Instr::Discard),
        _ => None,
    }
}

/// Relies on constructing `parity_wasm::elements::Instruction`: the inverse
/// of the `instr_of` mapping on every representable variant; only the caller
/// keeps `Other` out.
#[verifier::external_body]
fn to_parity(ins: &Instr) -> parity_wasm::elements::Instruction
    requires
        is_concrete(*ins),
{
    to_parity_i32_cmp(ins)
        .or_else(|| to_parity_i64_cmp(ins))
        .or_else(|| to_parity_int_arith(ins))
        .or_else(|| to_parity_f32(ins))
        .or_else(|| to_parity_f64(ins))
        .or_else(|| to_parity_operand(ins))
        .unwrap()
}

/// Relies on constructing `parity_wasm::elements::Instruction`: the 32-bit
/// integer comparison variants, each to its like-named opcode.
#[verifier::external_body]
fn to_parity_i32_cmp(ins: &Instr) -> Option<parity_wasm::elements::Instruction> {
    match ins {
        Instr::I32Eq => Some(Instruction::I32Eq),
        Instr::I32Ne => Some(Instruction::I32Ne),
        Instr::I32LtS => Some(Instruction::I32LtS),
        Instr::I32LtU => Some(Instruction::I32LtU),
        Instr::I32GtS => Some(Instruction::I32GtS),
        Instr::I32GtU => Some(Instruction::I32GtU),
        Instr::I32LeS => Some(Instruction::I32LeS),
        Instr::I32LeU => Some(Instruction::I32LeU),
        Instr::I32GeS => Some(Instruction::I32GeS),
        Instr::I32GeU => Some(Instruction::I32GeU),
        _ => None,
    }
}

/// Relies on constructing `parity_wasm::elements::Instruction`: the 64-bit
/// integer comparison variants, each to its like-named opcode.
#[verifier::external_body]
fn to_parity_i64_cmp(ins: &Instr) -> Option<parity_wasm::elements::Instruction> {
    match ins {
        Instr::I64Eq => Some(Instruction::I64Eq),
        Instr::I64Ne => Some(Instruction::I64Ne),
        Instr::I64LtS => Some(Instruction::I64LtS),
        Instr::I64LtU => Some(Instruction::I64LtU),
        Instr::I64GtS => Some(Instruction::I64GtS),
        Instr::I64GtU => Some(Instruction::I64GtU),
        Instr::I64LeS => Some(Instruction::I64LeS),
        Instr::I64LeU => Some(Instruction::I64LeU),
        Instr::I64GeS => Some(Instruction::I64GeS),
        Instr::I64GeU => Some(Instruction::I64GeU),
        _ => None,
    }
}

/// Relies on constructing `parity_wasm::elements::Instruction`: the integer
/// arithmetic and bitwise variants, each to its like-named opcode.
#[verifier::external_body]
fn to_parity_int_arith(ins: &Instr) -> Option<parity_wasm::elements::Instruction> {
    match ins {
        Instr::I32Add => Some(Instruction::I32Add),
        Instr::I32Sub => Some(Instruction::I32Sub),
        Instr::I32Mul => Some(Instruction::I32Mul),
        Instr::I32And => Some(Instruction::I32And),
        Instr::I32Or => Some(Instruction::I32Or),
        Instr::I64Add => Some(Instruction::I64Add),
        Instr::I64Sub => Some(Instruction::I64Sub),
        Instr::I64Mul => Some(Instruction::I64Mul),
        Instr::I64And => Some(Instruction::I64And),
        Instr::I64Or => Some(Instruction::I64Or),
        _ => None,
    }
}

/// Relies on constructing `parity_wasm::elements::Instruction`: the
/// single-precision variants of the model, each to its like-named opcode.
#[verifier::external_body]
fn to_parity_f32(ins: &Instr) -> Option<parity_wasm::elements::Instruction> {
    match ins {
        Instr::F32Eq => Some(Instruction::F32Eq),
        Instr::F32Ne => Some(Instruction::F32Ne),
        Instr::F32Gt => Some(Instruction::F32Gt),
        Instr::F32Ge => Some(Instruction::F32Ge),
        Instr::F32Add => Some(Instruction::F32Add),
        Instr::F32Sub => Some(Instruction::F32Sub),
        Instr::F32Mul => Some(Instruction::F32Mul),
        Instr::F32Ceil => Some(Instruction::F32Ceil),
        Instr::F32Floor => Some(Instruction::F32Floor),
        _ => None,
    }
}

/// Relies on constructing `parity_wasm::elements::Instruction`: the
/// double-precision variants of the model, each to its like-named opcode.
#[verifier::external_body]
fn to_parity_f64(ins: &Instr) -> Option<parity_wasm::elements::Instruction> {
    match ins {
        Instr::F64Eq => Some(Instruction::F64Eq),
        Instr::F64Ne => Some(Instruction::F64Ne),
        Instr::F64Gt => Some(Instruction::F64Gt),
        Instr::F64Ge => Some(Instruction::F64Ge),
        Instr::F64Add => Some(Instruction::F64Add),
        Instr::F64Sub => Some(Instruction::F64Sub),
        Instr::F64Mul => Some(Instruction::F64Mul),
        Instr::F64Ceil => Some(Instruction::F64Ceil),
        Instr::F64Floor => Some(Instruction::F64Floor),
        _ => None,
    }
}

/// Relies on constructing `parity_wasm::elements::Instruction`: the
/// operand-carrying variants and the value discard, fields moved as they are.
#[verifier::external_body]
fn to_parity_operand(ins: &Instr) -> Option<parity_wasm::elements::Instruction> {
    match ins {
        Instr::GetLocal(n) => Some(Instruction::GetLocal(*n)),
        Instr::SetLocal(n) => Some(Instruction::SetLocal(*n)),
        Instr::SetGlobal(n) => Some(Instruction::SetGlobal(*n)),
        Instr::I32Store(a, o) => Some(Instruction::I32Store(*a, *o)),
        Instr::I64Store(a, o) => Some(Instruction::I64Store(*a, *o)),
        Instr::F32Store(a, o) => Some(Instruction::F32Store(*a, *o)),
        Instr::F64Store(a, o) => Some(Instruction::F64Store(*a, *o)),
        Instr::BrIf(n) => Some(Instruction::BrIf(*n)),
        Instr::Discard => Some(Instruction::Drop),
        _ => None,
    }
}

} // verus!

//! The instruction model that the mutation logic works on.
//!
//! Only the instructions that some catalog operator can match or write, plus
//! the ones that mutated code is rewritten into, are represented individually.
//! Every other instruction of a function body appears as `Instr::Other`: the
//! catalog never matches it, and the engine never rewrites it.

use vstd::prelude::*;

verus! {

/// One instruction of a function body, as far as the mutation catalog is
/// concerned. Store instructions carry their (flags, offset) immediates;
/// local/global accesses and conditional branches carry their index.
#[derive(Clone, Copy, PartialEq, Eq, Structural, Debug)]
pub enum Instr {
    I32Eq,
    I32Ne,
    I32LtS,
    I32LtU,
    I32GtS,
    I32GtU,
    I32LeS,
    I32LeU,
    I32GeS,
    I32GeU,
    I64Eq,
    I64Ne,
    I64LtS,
    I64LtU,
    I64GtS,
    I64GtU,
    I64LeS,
    I64LeU,
    I64GeS,
    I64GeU,
    F32Eq,
    F32Ne,
    F32Gt,
    F32Ge,
    F64Eq,
    F64Ne,
    F64Gt,
    F64Ge,
    I32Add,
    I32Sub,
    I32Mul,
    I32And,
    I32Or,
    I64Add,
    I64Sub,
    I64Mul,
    I64And,
    I64Or,
    F32Add,
    F32Sub,
    F32Mul,
    F32Ceil,
    F32Floor,
    F64Add,
    F64Sub,
    F64Mul,
    F64Ceil,
    F64Floor,
    GetLocal(u32),
    SetLocal(u32),
    SetGlobal(u32),
    I32Store(u32, u32),
    I64Store(u32, u32),
    F32Store(u32, u32),
    F64Store(u32, u32),
    BrIf(u32),
    Discard,
    Other,
}

/// A local or global variable assignment: suppressing it needs one discard.
pub open spec fn is_assignment(i: Instr) -> bool {
    i is SetLocal || i is SetGlobal
}

/// A memory store of any width: suppressing it needs two discards, because the
/// store consumes both an address and a value from the stack.
pub open spec fn is_store(i: Instr) -> bool {
    i is I32Store || i is I64Store || i is F32Store || i is F64Store
}

/// A conditional branch whose test is consumed from the stack.
pub open spec fn is_cond_branch(i: Instr) -> bool {
    i is BrIf
}

/// An instruction the engine can write back into a module. `Other` stands for
/// the instructions outside the model, so it can never be written.
pub open spec fn is_concrete(i: Instr) -> bool {
    !(i is Other)
}

impl Instr {
    /// Executable form of [`is_assignment`].
    pub fn check_assignment(&self) -> (r: bool)
        ensures
            r == is_assignment(*self),
    {
        match self {
            Instr::SetLocal(_) => true,
            Instr::SetGlobal(_) => true,
            _ => false,
        }
    }

    /// Executable form of [`is_store`].
    pub fn check_store(&self) -> (r: bool)
        ensures
            r == is_store(*self),
    {
        match self {
            Instr::I32Store(_, _) => true,
            Instr::I64Store(_, _) => true,
            Instr::F32Store(_, _) => true,
            Instr::F64Store(_, _) => true,
            _ => false,
        }
    }

    /// Executable form of [`is_cond_branch`].
    pub fn check_cond_branch(&self) -> (r: bool)
        ensures
            r == is_cond_branch(*self),
    {
        match self {
            Instr::BrIf(_) => true,
            _ => false,
        }
    }

    /// Executable form of [`is_concrete`].
    pub fn check_concrete(&self) -> (r: bool)
        ensures
            r == is_concrete(*self),
    {
        match self {
            Instr::Other => false,
            _ => true,
        }
    }
}

} // verus!

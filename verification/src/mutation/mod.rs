//! Mutation data model, the operator catalog, and mutation generation.

pub mod all_mutators;
pub mod i32geu_to_gtu_mutator;
pub mod if_condition_to_false_mutator;
pub mod instruction_swapping_mutator;
pub mod mutation;
pub mod mutator;
pub mod set_cancelling_mutator;

pub use mutation::Mutation;

use vstd::prelude::*;

use crate::instr::Instr;
use crate::mutation::all_mutators::{all_mutators, catalog};
use crate::mutation::mutator::{found_mutations, found_upto, lemma_found_upto_elems, op_writes_concrete, MutatorOp};

verus! {

/// The instruction sequences of a list of function bodies.
pub open spec fn body_views(bodies: Seq<Vec<Instr>>) -> Seq<Seq<Instr>> {
    Seq::new(bodies.len(), |k: int| bodies[k]@)
}

/// The mutations proposed by the first `n` operators of `catalog` on `body`,
/// in catalog order.
pub open spec fn found_by_ops_upto(
    ops: Seq<MutatorOp>,
    body: Seq<Instr>,
    f: usize,
    n: int,
) -> Seq<Mutation>
    decreases n,
{
    if n <= 0 {
        Seq::empty()
    } else {
        found_by_ops_upto(ops, body, f, n - 1) + found_mutations(ops[n - 1], body, f)
    }
}

/// The mutations proposed by every operator of `ops` on `body`, in catalog
/// order.
pub open spec fn found_by_ops(ops: Seq<MutatorOp>, body: Seq<Instr>, f: usize) -> Seq<Mutation> {
    found_by_ops_upto(ops, body, f, ops.len() as int)
}

/// The mutations generated for the first `n` candidate functions, in
/// candidate order; per candidate, in catalog order.
pub open spec fn generated_upto(
    ops: Seq<MutatorOp>,
    candidates: Seq<usize>,
    bodies: Seq<Seq<Instr>>,
    n: int,
) -> Seq<Mutation>
    decreases n,
{
    if n <= 0 {
        Seq::empty()
    } else {
        generated_upto(ops, candidates, bodies, n - 1) + found_by_ops(
            ops,
            bodies[candidates[n - 1] as int],
            candidates[n - 1],
        )
    }
}

/// The full, deterministically ordered list of mutations that the catalog
/// `ops` proposes for the candidate functions `candidates` of `bodies`.
pub open spec fn generated_mutations(
    ops: Seq<MutatorOp>,
    candidates: Seq<usize>,
    bodies: Seq<Seq<Instr>>,
) -> Seq<Mutation> {
    generated_upto(ops, candidates, bodies, candidates.len() as int)
}

/// Every mutation proposed by the first `n` operators targets function `f`,
/// an instruction index inside `body`, and carries one of those operators.
proof fn lemma_found_by_ops_upto_elems(ops: Seq<MutatorOp>, body: Seq<Instr>, f: usize, n: int)
    requires
        n <= ops.len(),
        body.len() <= usize::MAX,
    ensures
        forall|j: int|
            0 <= j < found_by_ops_upto(ops, body, f, n).len() ==> {
                let m = #[trigger] found_by_ops_upto(ops, body, f, n)[j];
                &&& ops.contains(m.mutator)
                &&& m.function_index == f
                &&& m.instruction_index < body.len()
            },
    decreases n,
{
    if n > 0 {
        lemma_found_by_ops_upto_elems(ops, body, f, n - 1);
        lemma_found_upto_elems(ops[n - 1], body, f, body.len() as int);
        assert forall|j: int|
            0 <= j < found_by_ops_upto(ops, body, f, n).len() implies {
            let m = #[trigger] found_by_ops_upto(ops, body, f, n)[j];
            &&& ops.contains(m.mutator)
            &&& m.function_index == f
            &&& m.instruction_index < body.len()
        } by {
            let prev = found_by_ops_upto(ops, body, f, n - 1);
            if j >= prev.len() {
                let m = found_mutations(ops[n - 1], body, f)[j - prev.len()];
                assert(m.mutator == ops[n - 1]);
            }
        }
    }
}

/// Every mutation generated for the first `n` candidates targets one of those
/// candidate functions, an instruction index inside that function's body, and
/// carries a catalog operator.
pub proof fn lemma_generated_upto_elems(
    ops: Seq<MutatorOp>,
    candidates: Seq<usize>,
    bodies: Seq<Seq<Instr>>,
    n: int,
)
    requires
        n <= candidates.len(),
        forall|k: int| 0 <= k < candidates.len() ==> (#[trigger] candidates[k]) < bodies.len(),
        forall|k: int| 0 <= k < bodies.len() ==> (#[trigger] bodies[k]).len() <= usize::MAX,
    ensures
        forall|j: int|
            0 <= j < generated_upto(ops, candidates, bodies, n).len() ==> {
                let m = #[trigger] generated_upto(ops, candidates, bodies, n)[j];
                &&& ops.contains(m.mutator)
                &&& m.function_index < bodies.len()
                &&& m.instruction_index < bodies[m.function_index as int].len()
            },
    decreases n,
{
    if n > 0 {
        lemma_generated_upto_elems(ops, candidates, bodies, n - 1);
        lemma_found_by_ops_upto_elems(
            ops,
            bodies[candidates[n - 1] as int],
            candidates[n - 1],
            ops.len() as int,
        );
    }
}

/// Generation is idempotent: two runs of the generator over the same
/// catalog, candidate list and bodies propose the identical ordered mutation
/// list (the list is a function of those inputs and of nothing else).
pub proof fn lemma_generation_deterministic(
    ops: Seq<MutatorOp>,
    candidates: Seq<usize>,
    bodies: Seq<Seq<Instr>>,
    r1: Seq<Mutation>,
    r2: Seq<Mutation>,
)
    requires
        r1 == generated_mutations(ops, candidates, bodies),
        r2 == generated_mutations(ops, candidates, bodies),
    ensures
        r1 == r2,
{
}

/// For each candidate function index, in candidate order, runs every catalog
/// operator's scan over that function's body, in catalog order, and appends
/// the proposed mutations. The result is the deterministic total order in
/// which mutants are later evaluated and reported.
pub fn find_mutations(indices: &Vec<usize>, bodies: &Vec<Vec<Instr>>) -> (r: Vec<Mutation>)
    requires
        forall|k: int| 0 <= k < indices@.len() ==> (#[trigger] indices@[k]) < bodies@.len(),
    ensures
        r@ == generated_mutations(catalog(), indices@, body_views(bodies@)),
        forall|j: int|
            0 <= j < r@.len() ==> op_writes_concrete((#[trigger] r@[j]).mutator),
{
    let ops = all_mutators();
    let mut result: Vec<Mutation> = Vec::new();
    let mut c: usize = 0;
    while c < indices.len()
        invariant
            c <= indices@.len(),
            ops@ == catalog(),
            forall|k: int| 0 <= k < ops@.len() ==> op_writes_concrete(#[trigger] ops@[k]),
            forall|k: int| 0 <= k < indices@.len() ==> (#[trigger] indices@[k]) < bodies@.len(),
            result@ == generated_upto(catalog(), indices@, body_views(bodies@), c as int),
            forall|j: int|
                0 <= j < result@.len() ==> op_writes_concrete((#[trigger] result@[j]).mutator),
        decreases indices@.len() - c,
    {
        let f = indices[c];
        let body = &bodies[f];
        let body_length = body.len();
        let mut o: usize = 0;
        while o < ops.len()
            invariant
                o <= ops@.len(),
                ops@ == catalog(),
                forall|k: int| 0 <= k < ops@.len() ==> op_writes_concrete(#[trigger] ops@[k]),
                c < indices@.len(),
                forall|k: int| 0 <= k < indices@.len() ==> (#[trigger] indices@[k]) < bodies@.len(),
                f == indices@[c as int],
                f < bodies@.len(),
                body@ == body_views(bodies@)[f as int],
                body_length == body@.len(),
                result@ == generated_upto(catalog(), indices@, body_views(bodies@), c as int)
                    + found_by_ops_upto(catalog(), body@, f, o as int),
                forall|j: int|
                    0 <= j < result@.len() ==> op_writes_concrete((#[trigger] result@[j]).mutator),
            decreases ops@.len() - o,
        {
            let mut found = ops[o].find(body, f);
            proof {
                lemma_found_upto_elems(ops@[o as int], body@, f, body@.len() as int);
            }
            result.append(&mut found);
            o = o + 1;
        }
        c = c + 1;
    }
    result
}

} // verus!

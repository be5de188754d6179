//! The mutation orchestrator.
//!
//! From the original module bytes it selects candidate functions, generates
//! the full mutation list, and evaluates every mutation independently: each
//! one is applied to a freshly decoded copy of the original bytes, the mutant
//! is re-encoded and handed to the execution oracle, and the verdict is
//! classified by [`classify`]: a verdict of `Passed` makes the mutant
//! survive, `Failed` kills it, and an evaluation that produced no verdict is
//! recorded as that one mutation's error.

use vstd::prelude::*;

use parity_wasm::elements::Module;

use crate::candidates::identify_candidate_functions;
use crate::candidates::selected_indices;
use crate::instr::Instr;
use crate::mutation::all_mutators::catalog;
use crate::mutation::mutation::{mutant_bodies, mutation_valid};
use crate::mutation::{body_views, find_mutations, generated_mutations, lemma_generated_upto_elems, Mutation};
use crate::runner::{run_tests, OracleError, TestResult};
use crate::wasm::{
    body_len, decode_module, decode_ok, decoded_bodies, decoded_has_names, decoded_name_entries,
    encode_module, encode_ok, function_count, instr_at, module_bodies, reencode_ok,
};

verus! {

/// A fatal baseline error: no mutant can be derived from an untrustworthy
/// original module.
#[derive(Clone, Copy, PartialEq, Eq, Structural, Debug)]
pub enum EngineError {
    /// The original bytes fail to decode, or their function name table does
    /// not line up with the code section.
    BaselineInvalid,
    /// The original module carries no function name table, so name-prefix
    /// targeting is undefined.
    MissingNameTable,
}

/// An error confined to the evaluation of one mutation; the remaining
/// mutations are still evaluated.
#[derive(Clone, Copy, PartialEq, Eq, Structural, Debug)]
pub enum MutantError {
    /// The mutated module failed to re-encode.
    SerializeError,
    /// The execution oracle itself failed to run the mutated module.
    OracleError,
}

/// One mutation whose evaluation failed, and how.
#[derive(Clone, Copy, PartialEq, Eq, Structural, Debug)]
pub struct MutantFailure {
    pub mutation: Mutation,
    pub error: MutantError,
}

/// The outcome of a whole run: every surviving mutant, in generation order,
/// plus every per-mutation execution error. Killed mutants are discarded.
#[derive(Debug)]
pub struct MutationReport {
    pub surviving: Vec<Mutation>,
    pub errors: Vec<MutantFailure>,
}

/// What became of one evaluated mutation.
#[derive(Clone, Copy, PartialEq, Eq, Structural, Debug)]
pub enum MutantFate {
    /// The oracle reported `Passed`: the harness missed the defect.
    Survived,
    /// The oracle reported `Failed`: the harness caught the defect.
    Killed,
    /// Evaluation failed with the given per-mutation error.
    Errored(MutantError),
}

/// The mutations among the first `n` whose fate is `Survived`, in order.
pub open spec fn surviving_of(ms: Seq<Mutation>, fates: Seq<MutantFate>, n: int) -> Seq<Mutation>
    decreases n,
{
    if n <= 0 {
        Seq::empty()
    } else {
        surviving_of(ms, fates, n - 1) + if fates[n - 1] is Survived {
            seq![ms[n - 1]]
        } else {
            Seq::empty()
        }
    }
}

/// The failures among the first `n` mutations, in order.
pub open spec fn failures_of(ms: Seq<Mutation>, fates: Seq<MutantFate>, n: int) -> Seq<
    MutantFailure,
>
    decreases n,
{
    if n <= 0 {
        Seq::empty()
    } else {
        failures_of(ms, fates, n - 1) + match fates[n - 1] {
            MutantFate::Errored(e) => seq![(MutantFailure { mutation: ms[n - 1], error: e })],
            _ => Seq::empty(),
        }
    }
}

/// The fate the orchestrator assigns to one oracle outcome: a harness that
/// still passes means the defect was missed and the mutant survives, a
/// failing harness means the mutant is killed, and an oracle that could not
/// run at all is a per-mutation oracle error.
pub open spec fn verdict_fate(verdict: Result<TestResult, OracleError>) -> MutantFate {
    match verdict {
        Ok(TestResult::Passed) => MutantFate::Survived,
        Ok(TestResult::Failed) => MutantFate::Killed,
        Err(_) => MutantFate::Errored(MutantError::OracleError),
    }
}

/// Classifies one oracle outcome, exactly as [`verdict_fate`] says: this is
/// the whole decision the orchestrator takes on what the oracle reports.
pub fn classify(verdict: Result<TestResult, OracleError>) -> (fate: MutantFate)
    ensures
        fate == verdict_fate(verdict),
{
    match verdict {
        Ok(TestResult::Passed) => MutantFate::Survived,
        Ok(TestResult::Failed) => MutantFate::Killed,
        Err(_) => MutantFate::Errored(MutantError::OracleError),
    }
}

/// The fate of one evaluated mutant: a mutant module that fails to re-encode
/// is a serialize error before any verdict exists; otherwise the fate is the
/// classification of the oracle's verdict.
pub open spec fn outcome_fate(
    mutant: Module,
    verdict: Result<TestResult, OracleError>,
) -> MutantFate {
    if encode_ok(mutant) {
        verdict_fate(verdict)
    } else {
        MutantFate::Errored(MutantError::SerializeError)
    }
}

/// The fates of a run, one per evaluated mutant module and oracle verdict.
pub open spec fn fates_of_run(
    mutants: Seq<Module>,
    verdicts: Seq<Result<TestResult, OracleError>>,
) -> Seq<MutantFate> {
    Seq::new(mutants.len(), |k: int| outcome_fate(mutants[k], verdicts[k]))
}

/// One evaluation of the mutation list `ms` against the original bytes:
/// `mutants` holds one mutant module per mutation whose bodies are exactly
/// that one mutation applied to the bodies the original bytes decode to (a
/// fresh copy each time, so no mutation can see another's work), `verdicts`
/// holds one oracle outcome per mutation, and `surviving` and `errors` are
/// exactly the survivors and failures that the induced fates carve out of the
/// generation order.
pub open spec fn evaluation_matches(
    original: Seq<u8>,
    ms: Seq<Mutation>,
    mutants: Seq<Module>,
    verdicts: Seq<Result<TestResult, OracleError>>,
    surviving: Seq<Mutation>,
    errors: Seq<MutantFailure>,
) -> bool {
    &&& mutants.len() == ms.len()
    &&& verdicts.len() == ms.len()
    &&& forall|k: int|
        0 <= k < ms.len() ==> module_bodies(#[trigger] mutants[k]) == mutant_bodies(
            ms[k],
            decoded_bodies(original),
        )
    &&& surviving == surviving_of(ms, fates_of_run(mutants, verdicts), ms.len() as int)
    &&& errors == failures_of(ms, fates_of_run(mutants, verdicts), ms.len() as int)
}

/// There is one mutant module and one oracle verdict per mutation of `ms`
/// under which `surviving` and `errors` are exactly the classified outcome of
/// the run. The mutant modules' bodies and the verdict-to-fate map are fixed;
/// only which verdict the oracle returned, and whether each mutant module
/// re-encoded, stay the oracle's and the codec's own.
pub open spec fn run_report_ok(
    original: Seq<u8>,
    ms: Seq<Mutation>,
    surviving: Seq<Mutation>,
    errors: Seq<MutantFailure>,
) -> bool {
    exists|mutants: Seq<Module>, verdicts: Seq<Result<TestResult, OracleError>>|
        evaluation_matches(original, ms, mutants, verdicts, surviving, errors)
}

/// A mutant the oracle still passes is reported: if the fate of the `k`-th
/// evaluated mutation is `Survived`, that mutation stands in the surviving
/// list.
pub proof fn lemma_survivor_reported(ms: Seq<Mutation>, fates: Seq<MutantFate>, n: int, k: int)
    requires
        0 <= k < n <= ms.len(),
        fates[k] is Survived,
    ensures
        surviving_of(ms, fates, n).contains(ms[k]),
    decreases n,
{
    let prev = surviving_of(ms, fates, n - 1);
    if k == n - 1 {
        assert(surviving_of(ms, fates, n)[prev.len() as int] == ms[k]);
    } else {
        lemma_survivor_reported(ms, fates, n - 1, k);
        let w = choose|w: int| 0 <= w < prev.len() && prev[w] == ms[k];
        assert(surviving_of(ms, fates, n)[w] == ms[k]);
    }
}

/// A mutant the oracle catches is not reported: a mutation none of whose
/// evaluations had the fate `Survived` never stands in the surviving list.
pub proof fn lemma_killed_not_reported(
    ms: Seq<Mutation>,
    fates: Seq<MutantFate>,
    n: int,
    m: Mutation,
)
    requires
        forall|k: int| 0 <= k < n && ms[k] == m ==> !((#[trigger] fates[k]) is Survived),
    ensures
        !surviving_of(ms, fates, n).contains(m),
    decreases n,
{
    if n > 0 {
        lemma_killed_not_reported(ms, fates, n - 1, m);
        let prev = surviving_of(ms, fates, n - 1);
        if surviving_of(ms, fates, n).contains(m) {
            let w = choose|w: int|
                0 <= w < surviving_of(ms, fates, n).len() && surviving_of(ms, fates, n)[w] == m;
            if w < prev.len() {
                assert(prev.contains(m));
            } else {
                assert(ms[n - 1] == m && fates[n - 1] is Survived);
            }
        }
    }
}

/// Reads every function body of the module into the instruction model.
pub fn read_all_bodies(m: &Module) -> (r: Vec<Vec<Instr>>)
    ensures
        r@.len() == module_bodies(*m).len(),
        body_views(r@) == module_bodies(*m),
        forall|k: int|
            0 <= k < module_bodies(*m).len() ==> (#[trigger] module_bodies(*m)[k]).len()
                <= usize::MAX,
{
    let count = function_count(m);
    let mut bodies: Vec<Vec<Instr>> = Vec::new();
    let mut f: usize = 0;
    while f < count
        invariant
            f <= count,
            count == module_bodies(*m).len(),
            bodies@.len() == f,
            forall|k: int| 0 <= k < f ==> (#[trigger] bodies@[k])@ == module_bodies(*m)[k],
            forall|k: int| 0 <= k < f ==> (#[trigger] module_bodies(*m)[k]).len() <= usize::MAX,
        decreases count - f,
    {
        let len = body_len(m, f);
        let mut body: Vec<Instr> = Vec::new();
        let mut i: usize = 0;
        while i < len
            invariant
                i <= len,
                f < module_bodies(*m).len(),
                len == module_bodies(*m)[f as int].len(),
                body@ == module_bodies(*m)[f as int].take(i as int),
            decreases len - i,
        {
            let ins = instr_at(m, f, i);
            body.push(ins);
            proof {
                assert(module_bodies(*m)[f as int].take((i + 1) as int)
                    =~= module_bodies(*m)[f as int].take(i as int).push(
                    module_bodies(*m)[f as int][i as int],
                ));
            }
            i = i + 1;
        }
        proof {
            assert(body@ =~= module_bodies(*m)[f as int]);
        }
        bodies.push(body);
        f = f + 1;
    }
    proof {
        assert(body_views(bodies@) =~= module_bodies(*m));
    }
    bodies
}

/// The survivors and failures carved out of the first `n` mutations only
/// depend on the first `n` fates.
proof fn lemma_fates_agree(
    ms: Seq<Mutation>,
    fates1: Seq<MutantFate>,
    fates2: Seq<MutantFate>,
    n: int,
)
    requires
        forall|k: int| 0 <= k < n ==> fates1[k] == fates2[k],
    ensures
        surviving_of(ms, fates1, n) == surviving_of(ms, fates2, n),
        failures_of(ms, fates1, n) == failures_of(ms, fates2, n),
    decreases n,
{
    if n > 0 {
        lemma_fates_agree(ms, fates1, fates2, n - 1);
    }
}

/// Evaluates every mutation independently: decode a fresh copy of the
/// original bytes, apply exactly this one mutation, re-encode, and classify
/// the oracle's verdict on the mutant with [`classify`]. The two result lists
/// keep generation order: the survivors, and the per-mutation evaluation
/// failures (a mutant that fails to re-encode, or whose oracle run fails to
/// start, is recorded there and the remaining mutations are still evaluated).
fn run_mutations(original: &[u8], mutations: &Vec<Mutation>) -> (r: (
    Vec<Mutation>,
    Vec<MutantFailure>,
))
    requires
        decode_ok(original@),
        forall|j: int|
            0 <= j < mutations@.len() ==> mutation_valid(
                #[trigger] mutations@[j],
                decoded_bodies(original@),
            ),
    ensures
        run_report_ok(original@, mutations@, r.0@, r.1@),
{
    let mut surviving: Vec<Mutation> = Vec::new();
    let mut errors: Vec<MutantFailure> = Vec::new();
    let ghost mut mutants: Seq<Module> = Seq::empty();
    let ghost mut verdicts: Seq<Result<TestResult, OracleError>> = Seq::empty();
    let mut idx: usize = 0;
    while idx < mutations.len()
        invariant
            idx <= mutations@.len(),
            decode_ok(original@),
            forall|j: int|
                0 <= j < mutations@.len() ==> mutation_valid(
                    #[trigger] mutations@[j],
                    decoded_bodies(original@),
                ),
            mutants.len() == idx,
            verdicts.len() == idx,
            forall|k: int|
                0 <= k < idx ==> module_bodies(#[trigger] mutants[k]) == mutant_bodies(
                    mutations@[k],
                    decoded_bodies(original@),
                ),
            surviving@ == surviving_of(mutations@, fates_of_run(mutants, verdicts), idx as int),
            errors@ == failures_of(mutations@, fates_of_run(mutants, verdicts), idx as int),
        decreases mutations@.len() - idx,
    {
        let mutation = mutations[idx];
        let mut mutant = match decode_module(original) {
            Ok(m) => m,
            Err(_) => {
                proof {
                    assert(false);
                }
                vstd::pervasive::unreached()
            },
        };
        mutation.perform(&mut mutant);
        let ghost mutant_value = mutant;
        let ghost prev_mutants = mutants;
        let ghost prev_verdicts = verdicts;
        match encode_module(mutant) {
            Ok(mutant_bytes) => {
                let verdict = run_tests(mutant_bytes.as_slice());
                match classify(verdict) {
                    MutantFate::Survived => surviving.push(mutation),
                    MutantFate::Killed => {},
                    MutantFate::Errored(error) => errors.push(MutantFailure { mutation, error }),
                }
                proof {
                    mutants = prev_mutants.push(mutant_value);
                    verdicts = prev_verdicts.push(verdict);
                }
            },
            Err(_) => {
                errors.push(MutantFailure { mutation, error: MutantError::SerializeError });
                proof {
                    mutants = prev_mutants.push(mutant_value);
                    // A mutant that did not encode has no verdict; its fate
                    // ignores this placeholder.
                    verdicts = prev_verdicts.push(Ok(TestResult::Failed));
                }
            },
        }
        proof {
            lemma_fates_agree(
                mutations@,
                fates_of_run(prev_mutants, prev_verdicts),
                fates_of_run(mutants, verdicts),
                idx as int,
            );
            assert(surviving@ =~= surviving_of(
                mutations@,
                fates_of_run(mutants, verdicts),
                idx + 1,
            ));
            assert(errors@ =~= failures_of(mutations@, fates_of_run(mutants, verdicts), idx + 1));
        }
        idx = idx + 1;
    }
    let result = (surviving, errors);
    proof {
        assert(run_report_ok(original@, mutations@, result.0@, result.1@)) by {
            assert(evaluation_matches(
                original@,
                mutations@,
                mutants,
                verdicts,
                result.0@,
                result.1@,
            ));
        }
    }
    result
}

/// Every candidate index refers to a function body.
pub open spec fn candidates_in_range(candidates: Seq<usize>, bodies: Seq<Seq<Instr>>) -> bool {
    forall|k: int| 0 <= k < candidates.len() ==> (#[trigger] candidates[k]) < bodies.len()
}

/// `surviving` and `errors` are the classified outcome of one run over the
/// mutation list that the catalog generates for `bytes` under the given
/// filters (see [`run_report_ok`]).
pub open spec fn engine_report_ok(
    bytes: Seq<u8>,
    includes: Seq<String>,
    excludes: Seq<String>,
    surviving: Seq<Mutation>,
    errors: Seq<MutantFailure>,
) -> bool {
    run_report_ok(
        bytes,
        generated_mutations(
            catalog(),
            selected_indices(decoded_name_entries(bytes), includes, excludes),
            decoded_bodies(bytes),
        ),
        surviving,
        errors,
    )
}

/// The single externally callable operation of this engine.
///
/// Decodes the original bytes once, selects candidate functions by
/// demangled-name prefix, generates the full mutation list in its
/// deterministic order, and evaluates each mutation against a fresh copy of
/// the original module. On success the report is the classified outcome of
/// that run over the generated list, in generation order: each mutant whose
/// verdict was `Passed` stands in `surviving`, each whose evaluation produced
/// no verdict stands in `errors` with the failure kind, and killed mutants
/// are dropped — the verdict-to-fate map is fixed by [`classify`]; which
/// verdict the oracle returns is its own. Baseline problems are fatal:
/// undecodable bytes or a name-table index beyond the code section give
/// `BaselineInvalid`, and a module without a function name table gives
/// `MissingNameTable`.
pub fn find_surviving_mutants(
    original_module_contents: &[u8],
    include_modules: &Vec<String>,
    exclude_modules: &Vec<String>,
) -> (r: Result<MutationReport, EngineError>)
    ensures
        !decode_ok(original_module_contents@) ==> r == Err::<MutationReport, EngineError>(
            EngineError::BaselineInvalid,
        ),
        decode_ok(original_module_contents@) && !decoded_has_names(original_module_contents@)
            ==> r == Err::<MutationReport, EngineError>(EngineError::MissingNameTable),
        decode_ok(original_module_contents@) && decoded_has_names(original_module_contents@)
            && !candidates_in_range(
            selected_indices(
                decoded_name_entries(original_module_contents@),
                include_modules@,
                exclude_modules@,
            ),
            decoded_bodies(original_module_contents@),
        ) ==> r == Err::<MutationReport, EngineError>(EngineError::BaselineInvalid),
        r is Ok <==> decode_ok(original_module_contents@) && decoded_has_names(
            original_module_contents@,
        ) && candidates_in_range(
            selected_indices(
                decoded_name_entries(original_module_contents@),
                include_modules@,
                exclude_modules@,
            ),
            decoded_bodies(original_module_contents@),
        ),
        r matches Ok(report) ==> engine_report_ok(
            original_module_contents@,
            include_modules@,
            exclude_modules@,
            report.surviving@,
            report.errors@,
        ),
{
    let module = match decode_module(original_module_contents) {
        Ok(m) => m,
        Err(e) => {
            return Err(e);
        },
    };
    let indices = match identify_candidate_functions(&module, include_modules, exclude_modules) {
        Ok(v) => v,
        Err(e) => {
            return Err(e);
        },
    };
    let bodies = read_all_bodies(&module);
    let mut k: usize = 0;
    while k < indices.len()
        invariant
            k <= indices@.len(),
            decode_ok(original_module_contents@),
            decoded_has_names(original_module_contents@),
            bodies@.len() == decoded_bodies(original_module_contents@).len(),
            indices@ == selected_indices(
                decoded_name_entries(original_module_contents@),
                include_modules@,
                exclude_modules@,
            ),
            forall|j: int| 0 <= j < k ==> (#[trigger] indices@[j]) < bodies@.len(),
        decreases indices@.len() - k,
    {
        if indices[k] >= bodies.len() {
            proof {
                assert(!candidates_in_range(
                    indices@,
                    decoded_bodies(original_module_contents@),
                ));
            }
            return Err(EngineError::BaselineInvalid);
        }
        k = k + 1;
    }
    let mutations = find_mutations(&indices, &bodies);
    proof {
        assert forall|j: int|
            0 <= j < mutations@.len() implies mutation_valid(
            #[trigger] mutations@[j],
            decoded_bodies(original_module_contents@),
        ) by {
            lemma_generated_upto_elems(
                catalog(),
                indices@,
                body_views(bodies@),
                indices@.len() as int,
            );
        }
    }
    let pair = run_mutations(original_module_contents, &mutations);
    let report = MutationReport { surviving: pair.0, errors: pair.1 };
    proof {
        assert(mutations@ == generated_mutations(
            catalog(),
            selected_indices(
                decoded_name_entries(original_module_contents@),
                include_modules@,
                exclude_modules@,
            ),
            decoded_bodies(original_module_contents@),
        ));
        assert(engine_report_ok(
            original_module_contents@,
            include_modules@,
            exclude_modules@,
            report.surviving@,
            report.errors@,
        )) by {
            assert(run_report_ok(
                original_module_contents@,
                mutations@,
                report.surviving@,
                report.errors@,
            ));
        }
    }
    Ok(report)
}

/// Round trip at the codec boundary: decoding and immediately re-encoding an
/// unmutated module preserves its executable shape — whatever the re-encoded
/// bytes decode to has exactly the function bodies, at the same function
/// indices, that the original bytes decode to. Yields bytes exactly when the
/// original bytes decode and the decoded module re-encodes, which
/// `reencode_ok` names as a function of the bytes alone.
pub fn reencode_module(contents: &[u8]) -> (r: Option<Vec<u8>>)
    ensures
        r is Some <==> reencode_ok(contents@),
        r matches Some(bytes) ==> decode_ok(contents@) && (decode_ok(bytes@)
            ==> decoded_bodies(bytes@) == decoded_bodies(contents@)),
{
    match decode_module(contents) {
        Ok(m) => match encode_module(m) {
            Ok(bytes) => Some(bytes),
            Err(_) => None,
        },
        Err(_) => None,
    }
}

} // verus!

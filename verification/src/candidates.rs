//! Candidate-function selection by demangled-name prefix.
//!
//! A function is a mutation target iff it has a name-table entry whose
//! demangled name starts with at least one include prefix and with no exclude
//! prefix. The result keeps the name table's order, holds each function index
//! at most once, and selection fails outright when the module carries no name
//! table at all.

use vstd::prelude::*;
use vstd::string::StrSliceExecFns;

use parity_wasm::elements::Module;

use crate::engine::EngineError;
use crate::wasm::{module_has_names, module_name_entries, name_entries, names_present, NameEntry};

verus! {

/// The demangled display form of a raw symbol name.
pub uninterp spec fn demangle_of(raw: Seq<char>) -> Seq<char>;

/// Relies on `rustc_demangle::demangle`, displayed with its hash suffix
/// kept: a deterministic, pure function of the raw symbol text; a name that
/// is not mangled is passed through unchanged.
#[verifier::external_body]
fn demangle_name(raw: &str) -> (r: String)
    ensures
        r@ == demangle_of(raw@),
{
    rustc_demangle::demangle(raw).to_string()
}

/// `name` starts with at least one of `prefixes`.
pub open spec fn matches_any(name: Seq<char>, prefixes: Seq<String>) -> bool {
    exists|k: int| 0 <= k < prefixes.len() && (#[trigger] prefixes[k])@.is_prefix_of(name)
}

/// The name-table entry `e` is a candidate under the given filters.
pub open spec fn entry_selected(e: NameEntry, includes: Seq<String>, excludes: Seq<String>) -> bool {
    &&& matches_any(demangle_of(e.name@), includes)
    &&& !matches_any(demangle_of(e.name@), excludes)
}

/// The candidate function indices among the first `n` name-table entries, in
/// entry order, each index kept once.
pub open spec fn selected_upto(
    entries: Seq<NameEntry>,
    includes: Seq<String>,
    excludes: Seq<String>,
    n: int,
) -> Seq<usize>
    decreases n,
{
    if n <= 0 {
        Seq::empty()
    } else {
        let prev = selected_upto(entries, includes, excludes, n - 1);
        if entry_selected(entries[n - 1], includes, excludes) && !prev.contains(
            entries[n - 1].index as usize,
        ) {
            prev.push(entries[n - 1].index as usize)
        } else {
            prev
        }
    }
}

/// The candidate function indices of the whole name table.
pub open spec fn selected_indices(
    entries: Seq<NameEntry>,
    includes: Seq<String>,
    excludes: Seq<String>,
) -> Seq<usize> {
    selected_upto(entries, includes, excludes, entries.len() as int)
}

/// Whether `prefix` is a prefix of `s`, character by character.
fn str_starts_with(s: &str, prefix: &str) -> (r: bool)
    ensures
        r == prefix@.is_prefix_of(s@),
{
    let n = prefix.unicode_len();
    if n > s.unicode_len() {
        return false;
    }
    let mut i: usize = 0;
    while i < n
        invariant
            i <= n,
            n == prefix@.len(),
            n <= s@.len(),
            forall|j: int| 0 <= j < i ==> s@[j] == prefix@[j],
        decreases n - i,
    {
        if s.get_char(i) != prefix.get_char(i) {
            proof {
                assert(!prefix@.is_prefix_of(s@)) by {
                    if prefix@.is_prefix_of(s@) {
                        assert(prefix@[i as int] == s@.subrange(0, prefix@.len() as int)[i as int]);
                    }
                }
            }
            return false;
        }
        i = i + 1;
    }
    proof {
        assert(prefix@ =~= s@.subrange(0, prefix@.len() as int));
    }
    true
}

/// Whether the demangled `name` starts with any of `prefixes`.
fn matches_any_prefix(name: &str, prefixes: &Vec<String>) -> (r: bool)
    ensures
        r == matches_any(name@, prefixes@),
{
    let mut k: usize = 0;
    while k < prefixes.len()
        invariant
            k <= prefixes@.len(),
            forall|j: int| 0 <= j < k ==> !(#[trigger] prefixes@[j])@.is_prefix_of(name@),
        decreases prefixes@.len() - k,
    {
        if str_starts_with(name, prefixes[k].as_str()) {
            proof {
                assert((prefixes@[k as int])@.is_prefix_of(name@));
            }
            return true;
        }
        k = k + 1;
    }
    false
}

/// Whether `x` already stands in `v`.
fn contains_index(v: &Vec<usize>, x: usize) -> (r: bool)
    ensures
        r == v@.contains(x),
{
    let mut i: usize = 0;
    while i < v.len()
        invariant
            i <= v@.len(),
            forall|j: int| 0 <= j < i ==> v@[j] != x,
        decreases v@.len() - i,
    {
        if v[i] == x {
            proof {
                assert(v@[i as int] == x);
            }
            return true;
        }
        i = i + 1;
    }
    false
}

/// Determines which functions are eligible mutation targets: those whose
/// demangled name-table name starts with an include prefix and with no
/// exclude prefix. The result keeps the name table's entry order and holds
/// each function index exactly once; a function without a name-table entry is
/// never a candidate. Fails with `MissingNameTable` exactly when the module
/// carries no function name table.
pub fn identify_candidate_functions(
    module: &Module,
    include_modules: &Vec<String>,
    exclude_modules: &Vec<String>,
) -> (r: Result<Vec<usize>, EngineError>)
    ensures
        r is Err <==> !module_has_names(*module),
        r matches Err(e) ==> e == EngineError::MissingNameTable,
        r matches Ok(v) ==> v@ == selected_indices(
            module_name_entries(*module),
            include_modules@,
            exclude_modules@,
        ),
{
    if !names_present(module) {
        return Err(EngineError::MissingNameTable);
    }
    let entries = name_entries(module);
    let mut result: Vec<usize> = Vec::new();
    let mut n: usize = 0;
    while n < entries.len()
        invariant
            n <= entries@.len(),
            entries@ == module_name_entries(*module),
            result@ == selected_upto(
                module_name_entries(*module),
                include_modules@,
                exclude_modules@,
                n as int,
            ),
        decreases entries@.len() - n,
    {
        let entry = &entries[n];
        let demangled = demangle_name(entry.name.as_str());
        let included = matches_any_prefix(demangled.as_str(), include_modules);
        let excluded = matches_any_prefix(demangled.as_str(), exclude_modules);
        let index = entry.index as usize;
        if included && !excluded && !contains_index(&result, index) {
            result.push(index);
        }
        n = n + 1;
    }
    Ok(result)
}

/// Every selected index comes from a name-table entry among the first `n`
/// that is itself selected under the filters.
proof fn lemma_selected_upto_sources(
    entries: Seq<NameEntry>,
    includes: Seq<String>,
    excludes: Seq<String>,
    n: int,
)
    ensures
        forall|j: int|
            0 <= j < selected_upto(entries, includes, excludes, n).len() ==> exists|k: int|
                0 <= k < n && entries[k].index as usize == #[trigger] selected_upto(
                    entries,
                    includes,
                    excludes,
                    n,
                )[j] && entry_selected(entries[k], includes, excludes),
    decreases n,
{
    if n > 0 {
        lemma_selected_upto_sources(entries, includes, excludes, n - 1);
        assert forall|j: int|
            0 <= j < selected_upto(entries, includes, excludes, n).len() implies exists|k: int|
            0 <= k < n && entries[k].index as usize == #[trigger] selected_upto(
                entries,
                includes,
                excludes,
                n,
            )[j] && entry_selected(entries[k], includes, excludes) by {
            let prev = selected_upto(entries, includes, excludes, n - 1);
            if j < prev.len() {
                let k = choose|k: int|
                    0 <= k < n - 1 && entries[k].index as usize == prev[j] && entry_selected(
                        entries[k],
                        includes,
                        excludes,
                    );
                assert(0 <= k < n && entries[k].index as usize == selected_upto(
                    entries,
                    includes,
                    excludes,
                    n,
                )[j] && entry_selected(entries[k], includes, excludes));
            } else {
                assert(entries[n - 1].index as usize == selected_upto(
                    entries,
                    includes,
                    excludes,
                    n,
                )[j] && entry_selected(entries[n - 1], includes, excludes));
            }
        }
    }
}

/// Exclusion always wins: a function index all of whose name-table entries
/// match an exclude prefix is never selected, whatever include prefixes it
/// also matches.
pub proof fn lemma_exclude_wins(
    entries: Seq<NameEntry>,
    includes: Seq<String>,
    excludes: Seq<String>,
    x: usize,
)
    requires
        forall|k: int|
            0 <= k < entries.len() && (#[trigger] entries[k]).index as usize == x ==> matches_any(
                demangle_of(entries[k].name@),
                excludes,
            ),
    ensures
        !selected_indices(entries, includes, excludes).contains(x),
{
    lemma_selected_upto_sources(entries, includes, excludes, entries.len() as int);
    if selected_indices(entries, includes, excludes).contains(x) {
        let j = choose|j: int|
            0 <= j < selected_indices(entries, includes, excludes).len() && selected_indices(
                entries,
                includes,
                excludes,
            )[j] == x;
        assert(exists|k: int|
            0 <= k < entries.len() && entries[k].index as usize == selected_indices(
                entries,
                includes,
                excludes,
            )[j] && entry_selected(entries[k], includes, excludes));
    }
}

/// The selection is duplicate-free: however many include prefixes a
/// function's name matches, its index appears at most once.
pub proof fn lemma_candidates_unique(
    entries: Seq<NameEntry>,
    includes: Seq<String>,
    excludes: Seq<String>,
    n: int,
)
    ensures
        forall|i: int, j: int|
            0 <= i < j < selected_upto(entries, includes, excludes, n).len() ==> selected_upto(
                entries,
                includes,
                excludes,
                n,
            )[i] != selected_upto(entries, includes, excludes, n)[j],
    decreases n,
{
    if n > 0 {
        lemma_candidates_unique(entries, includes, excludes, n - 1);
        let prev = selected_upto(entries, includes, excludes, n - 1);
        assert forall|i: int, j: int|
            0 <= i < j < selected_upto(entries, includes, excludes, n).len() implies selected_upto(
            entries,
            includes,
            excludes,
            n,
        )[i] != selected_upto(entries, includes, excludes, n)[j] by {
            if j == prev.len() {
                assert(prev.contains(prev[i]));
            }
        }
    }
}

} // verus!

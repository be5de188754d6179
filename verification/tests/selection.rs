//! Candidate-selection tests: name-prefix filtering over a module's
//! demangled function name table.

use parity_wasm::builder::{Identity, ModuleBuilder};
use parity_wasm::elements::{FunctionNameSubsection, NameSection, Section};

use wasmut::candidates::identify_candidate_functions;
use wasmut::engine::EngineError;

fn module_with_names(names: Vec<(u32, &str)>) -> parity_wasm::elements::Module {
    let mut builder = ModuleBuilder::with_callback(Identity);
    for _ in 0..names.len() {
        builder = builder.function().build();
    }
    let mut module = builder.build();
    let mut functions = FunctionNameSubsection::default();
    for (index, name) in names {
        functions.names_mut().insert(index, String::from(name));
    }
    module.sections_mut().push(Section::Name(NameSection::new(None, Some(functions), None)));
    module
}

fn strings(items: Vec<&str>) -> Vec<String> {
    items.into_iter().map(String::from).collect()
}

#[test]
fn returns_no_functions_when_none_included() {
    let module = module_with_names(vec![
        (0, "roman_numerals::to_roman"),
        (1, "roman_numerals::tests::converts_one"),
        (2, "other_crate::helper"),
    ]);

    let result = identify_candidate_functions(&module, &strings(vec![]), &strings(vec![]))
        .unwrap();

    assert_eq!(result.len(), 0);
}

#[test]
fn returns_functions_in_include_modules() {
    let module = module_with_names(vec![
        (0, "roman_numerals::to_roman"),
        (1, "roman_numerals::tests::converts_one"),
        (2, "other_crate::helper"),
    ]);
    let names = vec![
        "roman_numerals::to_roman",
        "roman_numerals::tests::converts_one",
        "other_crate::helper",
    ];

    let result = identify_candidate_functions(
        &module,
        &strings(vec!["roman_numerals"]),
        &strings(vec![]),
    )
    .unwrap();

    let selected_names: Vec<&str> = result.iter().map(|index| names[*index]).collect();
    let to_roman_names: Vec<&&str> = selected_names
        .iter()
        .filter(|name| name.starts_with("roman_numerals::to_roman"))
        .collect();
    assert_eq!(to_roman_names.len(), 1);
}

#[test]
fn does_not_return_functions_in_exclude_modules() {
    let module = module_with_names(vec![
        (0, "roman_numerals::to_roman"),
        (1, "roman_numerals::tests::converts_one"),
        (2, "other_crate::helper"),
    ]);
    let names = vec![
        "roman_numerals::to_roman",
        "roman_numerals::tests::converts_one",
        "other_crate::helper",
    ];

    let result = identify_candidate_functions(
        &module,
        &strings(vec!["roman_numerals"]),
        &strings(vec!["roman_numerals::tests"]),
    )
    .unwrap();

    let selected_names: Vec<&str> = result.iter().map(|index| names[*index]).collect();
    let test_names: Vec<&&str> = selected_names
        .iter()
        .filter(|name| name.starts_with("roman_numerals::tests"))
        .collect();
    assert_eq!(test_names.len(), 0);
}

#[test]
fn selector_fails_without_name_table() {
    let module = ModuleBuilder::with_callback(Identity).function().build().build();

    let result = identify_candidate_functions(
        &module,
        &strings(vec!["anything"]),
        &strings(vec![]),
    );

    assert_eq!(result, Err(EngineError::MissingNameTable));
}

#[test]
fn exclude_prefix_wins_over_include() {
    let module = module_with_names(vec![(0, "app::tests::case"), (1, "app::logic")]);

    let result = identify_candidate_functions(
        &module,
        &strings(vec!["app"]),
        &strings(vec!["app::tests"]),
    )
    .unwrap();

    assert_eq!(result, vec![1]);
}

#[test]
fn candidate_listed_once_for_multiple_includes() {
    let module = module_with_names(vec![(0, "app::logic::run"), (1, "other::fn")]);

    let result = identify_candidate_functions(
        &module,
        &strings(vec!["app", "app::logic", "app::logic::run"]),
        &strings(vec![]),
    )
    .unwrap();

    assert_eq!(result, vec![0]);
}

#[test]
fn mangled_names_are_demangled_for_matching() {
    // A legacy-mangled symbol: the raw text starts with "_ZN", so the include
    // prefix can only match after demangling.
    let module = module_with_names(vec![(0, "_ZN4test4main17h0123456789abcdefE")]);

    let result = identify_candidate_functions(
        &module,
        &strings(vec!["test::main"]),
        &strings(vec![]),
    )
    .unwrap();

    assert_eq!(result, vec![0]);
}

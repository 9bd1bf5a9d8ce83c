use cairo_run_adapter::program::{
    first_unresolved_hint, load_from, load_program, parse_artifact, prepare_program,
    resolve_hints, select_entry_point, EntryPoint, EntryPointKind, LoadError,
};
use cairo_lang_executable::executable::Executable;
use cairo_vm::types::builtin_name::BuiltinName;

const RETURN_AT_ONCE: &str = r#"{
    "program": { "bytecode": ["0x208b7fff7fff7ffe"], "hints": [] },
    "entrypoints": [
        { "builtins": [], "offset": 0, "kind": "Standalone" }
    ]
}"#;

const BOOTLOADER_ONLY: &str = r#"{
    "program": { "bytecode": ["0x208b7fff7fff7ffe"], "hints": [] },
    "entrypoints": [
        { "builtins": ["output"], "offset": 0, "kind": "Bootloader" }
    ]
}"#;

const STANDALONE_SECOND: &str = r#"{
    "program": { "bytecode": ["0x208b7fff7fff7ffe", "0x208b7fff7fff7ffe"], "hints": [] },
    "entrypoints": [
        { "builtins": ["output", "range_check"], "offset": 1, "kind": "Bootloader" },
        { "builtins": ["range_check"], "offset": 0, "kind": "Standalone" }
    ]
}"#;

const HINT_BEYOND_THE_CODE: &str = r#"{
    "program": {
        "bytecode": ["0x208b7fff7fff7ffe"],
        "hints": [[7, [{ "AllocSegment": { "dst": { "register": "AP", "offset": 0 } } }]]]
    },
    "entrypoints": [
        { "builtins": [], "offset": 0, "kind": "Standalone" }
    ]
}"#;

fn entry(kind: EntryPointKind, offset: usize) -> EntryPoint {
    EntryPoint { kind, offset, builtins: Vec::new() }
}

fn error_of(text: &str) -> LoadError {
    match load_program(text.as_bytes()) {
        Ok(_) => panic!("the load succeeded"),
        Err(error) => error,
    }
}

#[test]
fn the_only_standalone_entry_point_is_selected() {
    let loaded = match load_program(STANDALONE_SECOND.as_bytes()) {
        Ok(loaded) => loaded,
        Err(error) => panic!("the artifact does not load: {:?}", error),
    };
    let selected = loaded.selected_entry_point();
    assert_eq!(selected.kind, EntryPointKind::Standalone);
    assert_eq!(selected.offset, 0);
    assert_eq!(selected.builtins, vec![BuiltinName::range_check]);
}

#[test]
fn without_standalone_entry_point_loading_fails() {
    assert_eq!(error_of(BOOTLOADER_ONLY), LoadError::NoEntryPoint);
    let none = r#"{ "program": { "bytecode": [], "hints": [] }, "entrypoints": [] }"#;
    assert_eq!(error_of(none), LoadError::NoEntryPoint);
}

#[test]
fn bytes_that_are_no_executable_are_malformed() {
    assert!(matches!(error_of("not json"), LoadError::ArtifactMalformed(_)));
    assert!(matches!(error_of("{}"), LoadError::ArtifactMalformed(_)));
    assert!(matches!(
        error_of(r#"{ "program": { "bytecode": ["zz"], "hints": [] }, "entrypoints": [] }"#),
        LoadError::ArtifactMalformed(_)
    ));
    assert!(matches!(parse_artifact(b""), Err(LoadError::ArtifactMalformed(_))));
}

#[test]
fn a_hint_beyond_the_code_fails_construction() {
    match error_of(HINT_BEYOND_THE_CODE) {
        LoadError::ProgramConstruction(detail) => {
            assert_eq!(detail, "Hint PC (7) is greater or equal to program length (1)");
        }
        other => panic!("unexpected error {:?}", other),
    }
}

#[test]
fn a_failed_read_is_unreadable() {
    let read = Err("No such file or directory (os error 2)".to_string());
    match load_from(read) {
        Ok(_) => panic!("the load succeeded"),
        Err(error) => assert_eq!(
            error,
            LoadError::ArtifactUnreadable("No such file or directory (os error 2)".to_string())
        ),
    }
    assert!(load_from(Ok(RETURN_AT_ONCE.as_bytes().to_vec())).is_ok());
    assert!(matches!(load_from(Ok(b"[]".to_vec())), Err(LoadError::ArtifactMalformed(_))));
}

#[test]
fn artifact_lists_its_entry_points_in_order() {
    let artifact = match parse_artifact(STANDALONE_SECOND.as_bytes()) {
        Ok(artifact) => artifact,
        Err(error) => panic!("unexpected error {:?}", error),
    };
    let entries = artifact.declared_entry_points();
    assert_eq!(entries.len(), 2);
    assert_eq!(
        entries[0],
        EntryPoint {
            kind: EntryPointKind::Bootloader,
            offset: 1,
            builtins: vec![BuiltinName::output, BuiltinName::range_check],
        }
    );
    assert_eq!(entries[1].kind, EntryPointKind::Standalone);
    assert_eq!(select_entry_point(entries), Some(1));
    assert!(prepare_program(artifact).is_ok());
}

#[test]
fn selection_takes_the_first_standalone() {
    assert_eq!(select_entry_point(&Vec::new()), None);
    assert_eq!(select_entry_point(&vec![entry(EntryPointKind::Bootloader, 0), entry(EntryPointKind::Bootloader, 6)]), None);
    assert_eq!(select_entry_point(&vec![entry(EntryPointKind::Standalone, 0)]), Some(0));
    assert_eq!(select_entry_point(&vec![entry(EntryPointKind::Bootloader, 6), entry(EntryPointKind::Standalone, 0)]), Some(1));
    assert_eq!(
        select_entry_point(&vec![entry(EntryPointKind::Bootloader, 6), entry(EntryPointKind::Standalone, 0), entry(EntryPointKind::Standalone, 9)]),
        Some(1)
    );
}

#[test]
fn hints_resolve_when_the_lookup_holds_them() {
    let known = vec!["alloc".to_string(), "test".to_string()];
    let declared = vec!["test".to_string(), "alloc".to_string(), "test".to_string()];
    assert_eq!(first_unresolved_hint(&declared, &known), None);
    assert_eq!(first_unresolved_hint(&Vec::new(), &Vec::new()), None);
    let declared = vec!["test".to_string(), "divmod".to_string(), "sqrt".to_string()];
    assert_eq!(first_unresolved_hint(&declared, &known), Some(1));
    assert_eq!(first_unresolved_hint(&declared, &Vec::new()), Some(0));
}

#[test]
fn load_errors_say_what_failed() {
    assert_eq!(
        LoadError::NoEntryPoint.message(),
        "No `Standalone` entrypoint found in executable."
    );
    assert_eq!(
        LoadError::ArtifactMalformed("expected value at line 1 column 1".to_string()).message(),
        "Failed to deserialize executable.\n\nCaused by:\n    expected value at line 1 column 1"
    );
    assert_eq!(
        LoadError::ArtifactUnreadable("gone".to_string()).message(),
        "Failed to read executable file. Make sure you have run 'scarb build'.\n\nCaused by:\n    gone"
    );
    assert_eq!(
        LoadError::ProgramConstruction("bad".to_string()).message(),
        "Failed to build program from executable.\n\nCaused by:\n    bad"
    );
    assert_eq!(
        LoadError::HintResolution("h".to_string()).message(),
        "Failed to resolve a hint of the executable.\n\nCaused by:\n    h"
    );
    assert_eq!(
        error_of("not json").message(),
        "Failed to deserialize executable.\n\nCaused by:\n    expected ident at line 1 column 2"
    );
}

#[test]
fn the_objection_of_the_deserializer_is_carried_word_for_word() {
    for text in ["not json", "{}", "", "[1, 2", r#"{ "program": 1, "entrypoints": [] }"#] {
        let objection = match serde_json::from_slice::<Executable>(text.as_bytes()) {
            Ok(_) => panic!("the bytes were accepted"),
            Err(error) => error.to_string(),
        };
        assert_eq!(
            parse_artifact(text.as_bytes()).err(),
            Some(LoadError::ArtifactMalformed(objection.clone()))
        );
        assert_eq!(error_of(text), LoadError::ArtifactMalformed(objection));
    }
}

#[test]
fn bytes_that_the_deserializer_accepts_are_parsed() {
    for text in [RETURN_AT_ONCE, BOOTLOADER_ONLY, STANDALONE_SECOND, HINT_BEYOND_THE_CODE] {
        assert!(serde_json::from_slice::<Executable>(text.as_bytes()).is_ok());
        assert!(parse_artifact(text.as_bytes()).is_ok());
    }
}

#[test]
fn an_unresolved_hint_is_reported_by_its_code() {
    let known = vec!["alloc".to_string(), "test".to_string()];
    let declared = vec!["test".to_string(), "alloc".to_string()];
    assert_eq!(resolve_hints(&declared, &known), Ok(()));
    assert_eq!(resolve_hints(&Vec::new(), &Vec::new()), Ok(()));
    let declared = vec!["test".to_string(), "divmod".to_string(), "sqrt".to_string()];
    assert_eq!(
        resolve_hints(&declared, &known),
        Err(LoadError::HintResolution("divmod".to_string()))
    );
}

#[test]
fn a_loaded_program_hands_over_its_parts() {
    let loaded = match load_program(STANDALONE_SECOND.as_bytes()) {
        Ok(loaded) => loaded,
        Err(error) => panic!("the artifact does not load: {:?}", error),
    };
    let selected = loaded.selected_entry_point().clone();
    let (program, context, entry_point) = loaded.into_parts();
    assert_eq!(entry_point, selected);
    assert_eq!(program.data_len(), 2);
    assert!(context.user_args.is_empty());
    assert!(context.markers.is_empty());
}

const HINT_INSIDE_THE_CODE: &str = r#"{
    "program": {
        "bytecode": ["0x208b7fff7fff7ffe", "0x208b7fff7fff7ffe", "0x208b7fff7fff7ffe"],
        "hints": [
            [2, [{ "AllocSegment": { "dst": { "register": "AP", "offset": 0 } } }]],
            [0, []]
        ]
    },
    "entrypoints": [
        { "builtins": ["output"], "offset": 1, "kind": "Standalone" }
    ]
}"#;

const HINTS_BEYOND_THE_CODE: &str = r#"{
    "program": {
        "bytecode": ["0x208b7fff7fff7ffe", "0x208b7fff7fff7ffe"],
        "hints": [
            [1, []],
            [12, [{ "AllocSegment": { "dst": { "register": "AP", "offset": 0 } } }]],
            [2, []],
            [5, []]
        ]
    },
    "entrypoints": [
        { "builtins": [], "offset": 0, "kind": "Bootloader" },
        { "builtins": [], "offset": 0, "kind": "Standalone" }
    ]
}"#;

fn artifact_of(text: &str) -> cairo_run_adapter::program::ProgramArtifact {
    match parse_artifact(text.as_bytes()) {
        Ok(artifact) => artifact,
        Err(error) => panic!("unexpected error {:?}", error),
    }
}

#[test]
fn the_artifact_lays_out_code_length_and_hint_offsets() {
    let artifact = artifact_of(HINT_INSIDE_THE_CODE);
    assert_eq!(artifact.code_length(), 3);
    assert_eq!(artifact.hint_offsets(), &vec![2, 0]);
    assert_eq!(artifact.declared_entry_points().len(), 1);
    let artifact = artifact_of(HINTS_BEYOND_THE_CODE);
    assert_eq!(artifact.code_length(), 2);
    assert_eq!(artifact.hint_offsets(), &vec![1, 12, 2, 5]);
    let artifact = artifact_of(RETURN_AT_ONCE);
    assert_eq!(artifact.code_length(), 1);
    assert!(artifact.hint_offsets().is_empty());
}

#[test]
fn loading_succeeds_when_every_hint_stands_inside_the_code() {
    for text in [RETURN_AT_ONCE, STANDALONE_SECOND, HINT_INSIDE_THE_CODE] {
        let artifact = artifact_of(text);
        let inside = artifact.hint_offsets().iter().all(|offset| *offset < artifact.code_length());
        assert!(inside);
        assert!(load_program(text.as_bytes()).is_ok());
    }
}

#[test]
fn the_builder_refuses_with_the_largest_offset_and_the_code_length() {
    assert_eq!(
        error_of(HINTS_BEYOND_THE_CODE),
        LoadError::ProgramConstruction(
            "Hint PC (12) is greater or equal to program length (2)".to_string()
        )
    );
    let on_the_edge = r#"{
        "program": { "bytecode": ["0x1", "0x2"], "hints": [[2, []]] },
        "entrypoints": [{ "builtins": [], "offset": 0, "kind": "Standalone" }]
    }"#;
    assert_eq!(
        error_of(on_the_edge),
        LoadError::ProgramConstruction(
            "Hint PC (2) is greater or equal to program length (2)".to_string()
        )
    );
}

#[test]
fn the_program_starts_at_the_selected_entry_point() {
    let loaded = match load_program(HINT_INSIDE_THE_CODE.as_bytes()) {
        Ok(loaded) => loaded,
        Err(error) => panic!("the artifact does not load: {:?}", error),
    };
    let (program, context, entry_point) = loaded.into_parts();
    assert_eq!(entry_point.offset, 1);
    assert_eq!(entry_point.builtins, vec![BuiltinName::output]);
    let builtins: Vec<BuiltinName> = program.iter_builtins().copied().collect();
    assert_eq!(builtins, entry_point.builtins);
    assert_eq!(program.data_len(), 3);
    let stripped = program.get_stripped_program().expect("the program has an entry");
    assert_eq!(stripped.main, entry_point.offset);
    assert_eq!(context.string_to_hint.len(), 1);
}

#[test]
fn without_standalone_entry_point_the_builder_is_not_asked() {
    let text = r#"{
        "program": { "bytecode": [], "hints": [[9, []]] },
        "entrypoints": [{ "builtins": [], "offset": 0, "kind": "Bootloader" }]
    }"#;
    assert_eq!(error_of(text), LoadError::NoEntryPoint);
}

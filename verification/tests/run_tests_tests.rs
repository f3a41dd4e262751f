use freight::paths::{file_stem, has_no_extension, join};
use freight::rustc::Edition;
use freight::rustdoc::RustDoc;
use freight::{
    build, lib_compile, root_dir, run_tests, test_compile, FreightError, LogEvent, Manifest,
};

fn demo_manifest() -> Manifest {
    Manifest { crate_name: "demo".to_string(), edition: Edition::E2021 }
}

#[test]
fn join_uses_the_path_separator() {
    assert_eq!(join("proj", "target"), "proj/target");
    assert_eq!(join("proj/target", "debug"), "proj/target/debug");
}

#[test]
fn file_stem_drops_the_extension_of_the_file_name() {
    assert_eq!(file_stem("src/lib.rs"), "lib");
    assert_eq!(file_stem("src/main.rs"), "main");
    assert_eq!(file_stem("main"), "main");
    assert_eq!(file_stem("a/b.c.d"), "b.c");
    assert_eq!(file_stem(".hidden"), ".hidden");
}

#[test]
fn extension_test_tells_binaries_from_artifacts() {
    assert!(has_no_extension("test_demo_lib"));
    assert!(has_no_extension(".hidden"));
    assert!(!has_no_extension("meta.json"));
    assert!(!has_no_extension("test_demo_lib.d"));
}

#[test]
fn lib_compile_targets_the_given_directory() {
    let step = lib_compile(&demo_manifest(), "proj/src/lib.rs", "proj/target/debug");
    assert_eq!(step.invocation.out_dir, "proj/target/debug");
    assert_eq!(step.invocation.lib_dir, "proj/target/debug");
    assert_eq!(step.invocation.crate_name, "demo");
    assert_eq!(step.log, Some(LogEvent::CompilingCrate("demo".to_string())));
}

#[test]
fn test_compile_names_the_binary_after_the_source_stem() {
    let externs: Vec<String> = Vec::new();
    let step = test_compile(&demo_manifest(), "proj/src/main.rs", "out", &externs);
    assert_eq!(step.invocation.crate_name, "test_demo_main");
    assert!(step.invocation.test);
    assert_eq!(step.log, None);
}

#[test]
fn run_tests_runs_each_extensionless_entry_in_order() {
    let entries = vec![
        "test_demo_lib".to_string(),
        "test_demo_lib.d".to_string(),
        "test_demo_main".to_string(),
        "notes.txt".to_string(),
        "extra_check".to_string(),
    ];
    let plan = run_tests(&demo_manifest(), "proj", &entries, true);
    assert_eq!(plan.runs.len(), 3);
    assert_eq!(plan.runs[0].program, "proj/target/debug/tests/test_demo_lib");
    assert_eq!(plan.runs[0].log, Some(LogEvent::LibUnitTest));
    assert_eq!(plan.runs[1].program, "proj/target/debug/tests/test_demo_main");
    assert_eq!(plan.runs[1].log, Some(LogEvent::MainUnitTest));
    assert_eq!(plan.runs[2].program, "proj/target/debug/tests/extra_check");
    assert_eq!(plan.runs[2].log, None);
}

#[test]
fn run_tests_adds_a_doc_test_pass_only_with_a_library() {
    let entries: Vec<String> = Vec::new();
    let with_lib = run_tests(&demo_manifest(), "proj", &entries, true);
    let doc = with_lib.doc.expect("a library project owes a documentation-test pass");
    assert_eq!(doc.log, LogEvent::DocTest("demo".to_string()));
    assert_eq!(doc.source, "proj/src/lib.rs");
    assert_eq!(doc.rustdoc.lib_path, "proj/target/debug");
    let without_lib = run_tests(&demo_manifest(), "proj", &entries, false);
    assert!(without_lib.doc.is_none());
}

#[test]
fn rustdoc_renders_the_documented_argument_order() {
    let doc = RustDoc::new(Edition::E2021, "demo".to_string(), "proj/target/debug".to_string());
    let args = doc.test("proj/src/lib.rs");
    let expected = vec![
        "--test",
        "proj/src/lib.rs",
        "--crate-name",
        "demo",
        "--edition",
        "2021",
        "-L",
        "proj/target/debug",
    ];
    assert_eq!(args, expected);
}

#[test]
fn root_dir_picks_the_innermost_ancestor_with_a_manifest() {
    let ancestors = vec!["a/b/c".to_string(), "a/b".to_string(), "a".to_string()];
    let found = vec![false, true, true];
    assert_eq!(root_dir(&ancestors, &found).unwrap(), "a/b");
}

#[test]
fn root_dir_without_a_manifest_anywhere_fails() {
    let ancestors = vec!["a/b".to_string(), "a".to_string()];
    let found = vec![false, false];
    assert_eq!(root_dir(&ancestors, &found).unwrap_err(), FreightError::ManifestNotFound);
}

#[test]
fn end_to_end_demo_project_builds_and_tests() {
    let manifest = demo_manifest();
    let root = "demo_root";

    let plan = build(&manifest, root, true, true).unwrap();
    assert_eq!(plan.out_dir, "demo_root/target/debug");
    assert_eq!(plan.steps.len(), 2);
    for step in &plan.steps {
        assert_eq!(step.invocation.out_dir, "demo_root/target/debug");
    }
    let second_args = plan.steps[1].invocation.args(&plan.steps[1].source);
    let pair: Vec<&String> = second_args.iter().filter(|a| *a == "--extern" || *a == "demo").collect();
    assert_eq!(pair.len(), 3);
    assert!(second_args.windows(2).any(|w| w[0] == "--extern" && w[1] == "demo"));

    let test_plan = freight::build_tests(&manifest, root, true, true).unwrap();
    assert_eq!(test_plan.out_dir, "demo_root/target/debug/tests");
    let names: Vec<&str> =
        test_plan.steps.iter().map(|s| s.invocation.crate_name.as_str()).collect();
    assert_eq!(names, vec!["test_demo_lib", "demo", "test_demo_main"]);

    let entries = vec!["test_demo_lib".to_string(), "test_demo_main".to_string()];
    let run_plan = run_tests(&manifest, root, &entries, true);
    assert_eq!(run_plan.runs.len(), 2);
    assert_eq!(run_plan.runs[0].log, Some(LogEvent::LibUnitTest));
    assert_eq!(run_plan.runs[1].log, Some(LogEvent::MainUnitTest));
    let doc = run_plan.doc.unwrap();
    let doc_args = doc.rustdoc.test(&doc.source);
    assert_eq!(doc_args[1], "demo_root/src/lib.rs");
    assert_eq!(doc_args[doc_args.len() - 1], "demo_root/target/debug");
}

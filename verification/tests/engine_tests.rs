use freight::rustc::{CrateType, Edition, Rustc, RustcError};
use freight::{build, build_tests, FreightError, LogEvent, Manifest, Shape};

fn demo_manifest() -> Manifest {
    Manifest { crate_name: "demo".to_string(), edition: Edition::E2021 }
}

#[test]
fn build_with_both_entry_points_compiles_lib_before_bin() {
    let plan = build(&demo_manifest(), "proj", true, true).unwrap();
    assert_eq!(plan.out_dir, "proj/target/debug");
    assert_eq!(plan.steps.len(), 2);
    assert_eq!(plan.steps[0].invocation.crate_type, CrateType::Lib);
    assert_eq!(plan.steps[0].source, "proj/src/lib.rs");
    assert!(plan.steps[0].invocation.externs.is_empty());
    assert_eq!(plan.steps[1].invocation.crate_type, CrateType::Bin);
    assert_eq!(plan.steps[1].source, "proj/src/main.rs");
    assert_eq!(plan.steps[1].invocation.externs, vec!["demo".to_string()]);
}

#[test]
fn build_with_both_entry_points_notifies_each_step() {
    let plan = build(&demo_manifest(), "proj", true, true).unwrap();
    assert_eq!(plan.steps[0].log, Some(LogEvent::CompilingCrate("demo".to_string())));
    assert_eq!(plan.steps[1].log, Some(LogEvent::CompilingBin("demo".to_string())));
}

#[test]
fn build_with_lib_only_issues_one_lib_invocation() {
    let plan = build(&demo_manifest(), "proj", true, false).unwrap();
    assert_eq!(plan.steps.len(), 1);
    assert_eq!(plan.steps[0].invocation.crate_type, CrateType::Lib);
    assert!(plan.steps.iter().all(|s| s.invocation.crate_type != CrateType::Bin));
}

#[test]
fn build_with_bin_only_links_the_package_name() {
    let plan = build(&demo_manifest(), "proj", false, true).unwrap();
    assert_eq!(plan.steps.len(), 1);
    assert_eq!(plan.steps[0].invocation.crate_type, CrateType::Bin);
    assert_eq!(plan.steps[0].invocation.externs, vec!["demo".to_string()]);
}

#[test]
fn build_with_neither_entry_point_fails() {
    let r = build(&demo_manifest(), "proj", false, false);
    assert_eq!(r.unwrap_err(), FreightError::NothingToCompile);
}

#[test]
fn build_tests_with_neither_entry_point_fails() {
    let r = build_tests(&demo_manifest(), "proj", false, false);
    assert_eq!(r.unwrap_err(), FreightError::NothingToCompile);
}

#[test]
fn build_is_idempotent() {
    let first = build(&demo_manifest(), "proj", true, true).unwrap();
    let second = build(&demo_manifest(), "proj", true, true).unwrap();
    assert_eq!(first.out_dir, second.out_dir);
    assert_eq!(first.steps.len(), second.steps.len());
    for (a, b) in first.steps.iter().zip(second.steps.iter()) {
        assert_eq!(a.source, b.source);
        assert_eq!(a.log, b.log);
        assert_eq!(a.invocation.args(&a.source), b.invocation.args(&b.source));
    }
}

#[test]
fn build_tests_with_both_entry_points_sequences_three_steps() {
    let plan = build_tests(&demo_manifest(), "proj", true, true).unwrap();
    assert_eq!(plan.out_dir, "proj/target/debug/tests");
    assert_eq!(plan.steps.len(), 3);
    let first = &plan.steps[0].invocation;
    assert_eq!(first.crate_name, "test_demo_lib");
    assert_eq!(first.crate_type, CrateType::Bin);
    assert!(first.test);
    assert!(first.externs.is_empty());
    let second = &plan.steps[1].invocation;
    assert_eq!(second.crate_name, "demo");
    assert_eq!(second.crate_type, CrateType::Lib);
    assert!(!second.test);
    assert_eq!(second.out_dir, "proj/target/debug/tests");
    let third = &plan.steps[2].invocation;
    assert_eq!(third.crate_name, "test_demo_main");
    assert!(third.test);
    assert_eq!(third.externs, vec!["demo".to_string()]);
}

#[test]
fn build_tests_with_one_entry_point_links_nothing() {
    let lib_plan = build_tests(&demo_manifest(), "proj", true, false).unwrap();
    assert_eq!(lib_plan.steps.len(), 1);
    assert_eq!(lib_plan.steps[0].invocation.crate_name, "test_demo_lib");
    assert!(lib_plan.steps[0].invocation.externs.is_empty());
    let bin_plan = build_tests(&demo_manifest(), "proj", false, true).unwrap();
    assert_eq!(bin_plan.steps.len(), 1);
    assert_eq!(bin_plan.steps[0].invocation.crate_name, "test_demo_main");
    assert!(bin_plan.steps[0].invocation.externs.is_empty());
}

#[test]
fn shape_classification_covers_all_cases() {
    assert_eq!(Shape::classify(true, true), Shape::LibAndBin);
    assert_eq!(Shape::classify(true, false), Shape::LibOnly);
    assert_eq!(Shape::classify(false, true), Shape::BinOnly);
    assert_eq!(Shape::classify(false, false), Shape::Neither);
}

#[test]
fn builder_reports_the_first_missing_required_field() {
    assert_eq!(Rustc::builder().done().unwrap_err(), RustcError::MissingCrateType);
    assert_eq!(
        Rustc::builder().crate_type(CrateType::Lib).done().unwrap_err(),
        RustcError::MissingCrateName
    );
    assert_eq!(
        Rustc::builder().crate_type(CrateType::Lib).crate_name("demo").done().unwrap_err(),
        RustcError::MissingOutDir
    );
    assert_eq!(
        Rustc::builder()
            .crate_type(CrateType::Lib)
            .crate_name("demo")
            .out_dir("target/debug")
            .done()
            .unwrap_err(),
        RustcError::MissingLibDir
    );
}

#[test]
fn builder_defaults_the_edition_to_the_oldest() {
    let inv = Rustc::builder()
        .crate_type(CrateType::Lib)
        .crate_name("demo")
        .out_dir("target/debug")
        .lib_dir("target/debug")
        .done()
        .unwrap();
    assert_eq!(inv.edition, Edition::E2015);
    let args = inv.args("src/lib.rs");
    assert_eq!(args[1], "--edition");
    assert_eq!(args[2], "2015");
}

#[test]
fn rendered_args_follow_the_documented_order() {
    let inv = Rustc::builder()
        .edition(Edition::E2018)
        .crate_type(CrateType::Bin)
        .crate_name("demo")
        .out_dir("target/debug")
        .lib_dir("target/debug")
        .externs("alpha")
        .externs("beta")
        .cfg("feature_a")
        .cfg("feature_b")
        .test(true)
        .done()
        .unwrap();
    let args = inv.args("src/main.rs");
    let expected = vec![
        "src/main.rs",
        "--edition",
        "2018",
        "--crate-type",
        "bin",
        "--crate-name",
        "demo",
        "--out-dir",
        "target/debug",
        "-L",
        "target/debug",
        "--extern",
        "alpha",
        "--extern",
        "beta",
        "--cfg",
        "feature_a",
        "--cfg",
        "feature_b",
        "--test",
    ];
    assert_eq!(args, expected);
    assert_eq!(args.iter().filter(|a| *a == "--out-dir").count(), 1);
    assert_eq!(args.iter().filter(|a| *a == "-L").count(), 1);
    assert_eq!(args.iter().filter(|a| *a == "--extern").count(), 2);
    assert_eq!(args.iter().filter(|a| *a == "--cfg").count(), 2);
}

#[test]
fn edition_and_crate_type_render_their_command_line_forms() {
    assert_eq!(Edition::E2015.text(), "2015");
    assert_eq!(Edition::E2018.text(), "2018");
    assert_eq!(Edition::E2021.text(), "2021");
    assert_eq!(CrateType::Bin.text(), "bin");
    assert_eq!(CrateType::Lib.text(), "lib");
    assert_eq!(CrateType::RLib.text(), "rlib");
    assert_eq!(CrateType::DyLib.text(), "dylib");
    assert_eq!(CrateType::CDyLib.text(), "cdylib");
    assert_eq!(CrateType::StaticLib.text(), "staticlib");
    assert_eq!(CrateType::ProcMacro.text(), "proc-macro");
}

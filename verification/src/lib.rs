//! A minimal build-orchestration engine: it classifies the shape of a
//! single-package project, decides which compiler invocations to make and in
//! what order, and renders each invocation as the argument list for the
//! toolchain. Reading the project, spawning the toolchain and reporting
//! progress are left to the caller, which feeds the engine plain values and
//! carries out the plans it returns.

pub mod laws;
pub mod paths;
pub mod rustc;
pub mod rustdoc;

use crate::paths::{extensionless, join, join_path};
use crate::rustc::{lemma_deep_view_push, CrateType, Edition, Rustc, RustcView};
use crate::rustdoc::{RustDoc, RustDocView};
use vstd::prelude::*;

verus! {

/// A fatal condition of the orchestration engine.
#[derive(Clone, Copy, PartialEq, Eq, Structural, Debug)]
pub enum FreightError {
    /// No ancestor directory holds the manifest file.
    ManifestNotFound,
    /// Neither entry point exists.
    NothingToCompile,
}

/// The project descriptor: package name and language edition.
#[derive(Debug)]
pub struct Manifest {
    pub crate_name: String,
    pub edition: Edition,
}

/// The model of a manifest.
#[verifier::ext_equal]
pub struct ManifestView {
    pub crate_name: Seq<char>,
    pub edition: Edition,
}

impl View for Manifest {
    type V = ManifestView;

    open spec fn view(&self) -> ManifestView {
        ManifestView { crate_name: self.crate_name@, edition: self.edition }
    }
}

/// Which entry-point source files a project has.
#[derive(Clone, Copy, PartialEq, Eq, Structural, Debug)]
pub enum Shape {
    LibAndBin,
    LibOnly,
    BinOnly,
    Neither,
}

/// The shape a project has when its library entry point exists as stated by
/// `lib_exists` and its executable entry point as stated by `main_exists`.
pub open spec fn shape_of(lib_exists: bool, main_exists: bool) -> Shape {
    if lib_exists && main_exists {
        Shape::LibAndBin
    } else if lib_exists {
        Shape::LibOnly
    } else if main_exists {
        Shape::BinOnly
    } else {
        Shape::Neither
    }
}

impl Shape {
    /// Classifies a project from the presence of its two entry points.
    pub fn classify(lib_exists: bool, main_exists: bool) -> (s: Shape)
        ensures
            s == shape_of(lib_exists, main_exists),
    {
        if lib_exists && main_exists {
            Shape::LibAndBin
        } else if lib_exists {
            Shape::LibOnly
        } else if main_exists {
            Shape::BinOnly
        } else {
            Shape::Neither
        }
    }
}

/// A lifecycle notification for the progress reporter.
#[derive(PartialEq, Eq, Debug)]
pub enum LogEvent {
    /// A library compile of the named package begins.
    CompilingCrate(String),
    /// An executable compile of the named package begins.
    CompilingBin(String),
    /// The executable unit-test binary runs.
    MainUnitTest,
    /// The library unit-test binary runs.
    LibUnitTest,
    /// The documentation-test pass of the named package runs.
    DocTest(String),
}

/// The model of a lifecycle notification.
pub enum LogEventView {
    CompilingCrate(Seq<char>),
    CompilingBin(Seq<char>),
    MainUnitTest,
    LibUnitTest,
    DocTest(Seq<char>),
}

impl View for LogEvent {
    type V = LogEventView;

    open spec fn view(&self) -> LogEventView {
        match self {
            LogEvent::CompilingCrate(n) => LogEventView::CompilingCrate(n@),
            LogEvent::CompilingBin(n) => LogEventView::CompilingBin(n@),
            LogEvent::MainUnitTest => LogEventView::MainUnitTest,
            LogEvent::LibUnitTest => LogEventView::LibUnitTest,
            LogEvent::DocTest(n) => LogEventView::DocTest(n@),
        }
    }
}

/// One compile step of a plan: the notification to emit, the invocation to
/// run, and the source path to run it on.
#[derive(Debug)]
pub struct CompileStep {
    pub log: Option<LogEvent>,
    pub invocation: Rustc,
    pub source: String,
}

/// The model of a compile step.
#[verifier::ext_equal]
pub struct CompileStepView {
    pub log: Option<LogEventView>,
    pub invocation: RustcView,
    pub source: Seq<char>,
}

impl View for CompileStep {
    type V = CompileStepView;

    open spec fn view(&self) -> CompileStepView {
        CompileStepView {
            log: match self.log {
                Some(l) => Some(l@),
                None => None,
            },
            invocation: self.invocation@,
            source: self.source@,
        }
    }
}

impl DeepView for CompileStep {
    type V = CompileStepView;

    open spec fn deep_view(&self) -> CompileStepView {
        self.view()
    }
}

/// A build plan: the output directory to create, then the compile steps to
/// run in order.
#[derive(Debug)]
pub struct BuildPlan {
    pub out_dir: String,
    pub steps: Vec<CompileStep>,
}

/// The model of a build plan.
#[verifier::ext_equal]
pub struct BuildPlanView {
    pub out_dir: Seq<char>,
    pub steps: Seq<CompileStepView>,
}

impl View for BuildPlan {
    type V = BuildPlanView;

    open spec fn view(&self) -> BuildPlanView {
        BuildPlanView { out_dir: self.out_dir@, steps: self.steps.deep_view() }
    }
}

/// The view of a plan result, errors kept as they are.
pub open spec fn plan_result_view(r: Result<BuildPlan, FreightError>) -> Result<
    BuildPlanView,
    FreightError,
> {
    match r {
        Ok(p) => Ok(p@),
        Err(e) => Err(e),
    }
}

/// The output directory of ordinary builds.
pub open spec fn debug_dir(root: Seq<char>) -> Seq<char> {
    join_path(join_path(root, "target"@), "debug"@)
}

/// The output directory of test builds.
pub open spec fn tests_dir(root: Seq<char>) -> Seq<char> {
    join_path(debug_dir(root), "tests"@)
}

/// The library entry-point path of a project.
pub open spec fn lib_source(root: Seq<char>) -> Seq<char> {
    join_path(join_path(root, "src"@), "lib.rs"@)
}

/// The executable entry-point path of a project.
pub open spec fn bin_source(root: Seq<char>) -> Seq<char> {
    join_path(join_path(root, "src"@), "main.rs"@)
}

/// The package name of a test binary: `test_<package>_<source-file-stem>`,
/// so the library-test and executable-test binaries cannot collide.
pub open spec fn test_crate_name(package: Seq<char>, source: Seq<char>) -> Seq<char> {
    "test_"@ + package + "_"@ + paths::stem_of(paths::after_last_slash(source))
}

/// The invocation that compiles the library.
pub open spec fn lib_invocation(m: ManifestView, out_dir: Seq<char>) -> RustcView {
    RustcView {
        edition: m.edition,
        crate_type: CrateType::Lib,
        crate_name: m.crate_name,
        out_dir,
        lib_dir: out_dir,
        externs: Seq::empty(),
        cfg: Seq::empty(),
        test: false,
    }
}

/// The invocation that compiles the executable, linking the given external
/// dependencies.
pub open spec fn bin_invocation(
    m: ManifestView,
    out_dir: Seq<char>,
    externs: Seq<Seq<char>>,
) -> RustcView {
    RustcView {
        edition: m.edition,
        crate_type: CrateType::Bin,
        crate_name: m.crate_name,
        out_dir,
        lib_dir: out_dir,
        externs,
        cfg: Seq::empty(),
        test: false,
    }
}

/// The invocation that compiles a test binary from `source`.
pub open spec fn test_invocation(
    m: ManifestView,
    source: Seq<char>,
    out_dir: Seq<char>,
    externs: Seq<Seq<char>>,
) -> RustcView {
    RustcView {
        edition: m.edition,
        crate_type: CrateType::Bin,
        crate_name: test_crate_name(m.crate_name, source),
        out_dir,
        lib_dir: out_dir,
        externs,
        cfg: Seq::empty(),
        test: true,
    }
}

/// The compile step that builds the library out of `source` into `out_dir`.
pub open spec fn lib_step(m: ManifestView, source: Seq<char>, out_dir: Seq<char>) -> CompileStepView {
    CompileStepView {
        log: Some(LogEventView::CompilingCrate(m.crate_name)),
        invocation: lib_invocation(m, out_dir),
        source,
    }
}

/// The compile step that builds the executable out of `source` into
/// `out_dir`, linking `externs`.
pub open spec fn bin_step(
    m: ManifestView,
    source: Seq<char>,
    out_dir: Seq<char>,
    externs: Seq<Seq<char>>,
) -> CompileStepView {
    CompileStepView {
        log: Some(LogEventView::CompilingBin(m.crate_name)),
        invocation: bin_invocation(m, out_dir, externs),
        source,
    }
}

/// The compile step that builds a test binary out of `source` into
/// `out_dir`, linking `externs`. It emits no notification.
pub open spec fn test_step(
    m: ManifestView,
    source: Seq<char>,
    out_dir: Seq<char>,
    externs: Seq<Seq<char>>,
) -> CompileStepView {
    CompileStepView {
        log: None,
        invocation: test_invocation(m, source, out_dir, externs),
        source,
    }
}

/// The plan of `build`: under `target/debug`, the library compile first
/// where a library exists, then the executable compile with a link to the
/// package name where an executable exists; an error when there is nothing
/// to compile.
pub open spec fn build_plan_spec(
    m: ManifestView,
    root: Seq<char>,
    lib_exists: bool,
    main_exists: bool,
) -> Result<BuildPlanView, FreightError> {
    let out = debug_dir(root);
    match shape_of(lib_exists, main_exists) {
        Shape::LibAndBin => Ok(
            BuildPlanView {
                out_dir: out,
                steps: seq![
                    lib_step(m, lib_source(root), out),
                    bin_step(m, bin_source(root), out, seq![m.crate_name]),
                ],
            },
        ),
        Shape::LibOnly => Ok(
            BuildPlanView { out_dir: out, steps: seq![lib_step(m, lib_source(root), out)] },
        ),
        Shape::BinOnly => Ok(
            BuildPlanView {
                out_dir: out,
                steps: seq![bin_step(m, bin_source(root), out, seq![m.crate_name])],
            },
        ),
        Shape::Neither => Err(FreightError::NothingToCompile),
    }
}

/// The plan of `build_tests`: under `target/debug/tests`, one test compile
/// per entry point; between the two, when both exist, an ordinary library
/// compile into the same directory, so the executable's test invocation can
/// resolve the library symbols.
pub open spec fn test_plan_spec(
    m: ManifestView,
    root: Seq<char>,
    lib_exists: bool,
    main_exists: bool,
) -> Result<BuildPlanView, FreightError> {
    let out = tests_dir(root);
    match shape_of(lib_exists, main_exists) {
        Shape::LibAndBin => Ok(
            BuildPlanView {
                out_dir: out,
                steps: seq![
                    test_step(m, lib_source(root), out, Seq::empty()),
                    lib_step(m, lib_source(root), out),
                    test_step(m, bin_source(root), out, seq![m.crate_name]),
                ],
            },
        ),
        Shape::LibOnly => Ok(
            BuildPlanView {
                out_dir: out,
                steps: seq![test_step(m, lib_source(root), out, Seq::empty())],
            },
        ),
        Shape::BinOnly => Ok(
            BuildPlanView {
                out_dir: out,
                steps: seq![test_step(m, bin_source(root), out, Seq::empty())],
            },
        ),
        Shape::Neither => Err(FreightError::NothingToCompile),
    }
}

/// The compile step of the library: notify, then compile `lib_path` as a
/// library into `out_dir`, which also serves as the search directory.
pub fn lib_compile(manifest: &Manifest, lib_path: &str, out_dir: &str) -> (s: CompileStep)
    ensures
        s@ == lib_step(manifest@, lib_path@, out_dir@),
{
    let builder = Rustc::builder()
        .edition(manifest.edition)
        .crate_type(CrateType::Lib)
        .crate_name(manifest.crate_name.as_str())
        .out_dir(out_dir)
        .lib_dir(out_dir);
    let invocation = match builder.done() {
        Ok(inv) => inv,
        Err(_) => unreached(),
    };
    proof {
        assert(invocation@ =~= lib_invocation(manifest@, out_dir@));
    }
    let s = CompileStep {
        log: Some(LogEvent::CompilingCrate(manifest.crate_name.clone())),
        invocation,
        source: String::from_str(lib_path),
    };
    proof {
        assert(s@ =~~= lib_step(manifest@, lib_path@, out_dir@));
    }
    s
}

/// The compile step of the executable: notify, then compile `bin_path` as
/// an executable into `out_dir`, linking each name of `externs` in order.
pub fn bin_compile(manifest: &Manifest, bin_path: &str, out_dir: &str, externs: &Vec<String>) -> (s:
    CompileStep)
    ensures
        s@ == bin_step(manifest@, bin_path@, out_dir@, externs.deep_view()),
{
    let mut builder = Rustc::builder()
        .edition(manifest.edition)
        .crate_type(CrateType::Bin)
        .crate_name(manifest.crate_name.as_str())
        .out_dir(out_dir)
        .lib_dir(out_dir);
    proof {
        assert(builder.externs.deep_view() =~= externs.deep_view().take(0));
    }
    let mut i: usize = 0;
    while i < externs.len()
        invariant
            i <= externs.len(),
            builder.edition == Some(manifest.edition),
            builder.crate_type == Some(CrateType::Bin),
            builder.crate_name matches Some(n) && n@ == manifest.crate_name@,
            builder.out_dir matches Some(d) && d@ == out_dir@,
            builder.lib_dir matches Some(d) && d@ == out_dir@,
            builder.externs.deep_view() == externs.deep_view().take(i as int),
            builder.cfg.deep_view() == Seq::<Seq<char>>::empty(),
            !builder.test,
        decreases externs.len() - i,
    {
        builder = builder.externs(externs[i].as_str());
        proof {
            assert(externs.deep_view().take(i + 1) =~= externs.deep_view().take(i as int).push(
                externs.deep_view()[i as int],
            ));
        }
        i = i + 1;
    }
    proof {
        assert(externs.deep_view().take(externs.len() as int) =~= externs.deep_view());
    }
    let invocation = match builder.done() {
        Ok(inv) => inv,
        Err(_) => unreached(),
    };
    proof {
        assert(invocation@ =~= bin_invocation(manifest@, out_dir@, externs.deep_view()));
    }
    let s = CompileStep {
        log: Some(LogEvent::CompilingBin(manifest.crate_name.clone())),
        invocation,
        source: String::from_str(bin_path),
    };
    proof {
        assert(s@ =~~= bin_step(manifest@, bin_path@, out_dir@, externs.deep_view()));
    }
    s
}

/// The compile step of a test binary: compile `bin_path` as an executable
/// in test mode into `out_dir`, under the name `test_<package>_<stem>`,
/// linking each name of `externs` in order.
pub fn test_compile(manifest: &Manifest, bin_path: &str, out_dir: &str, externs: &Vec<String>) -> (s:
    CompileStep)
    ensures
        s@ == test_step(manifest@, bin_path@, out_dir@, externs.deep_view()),
{
    let stem = paths::file_stem(bin_path);
    let name = String::from_str("test_").concat(manifest.crate_name.as_str()).concat("_").concat(
        stem.as_str(),
    );
    let mut builder = Rustc::builder()
        .edition(manifest.edition)
        .crate_type(CrateType::Bin)
        .crate_name(name.as_str())
        .out_dir(out_dir)
        .lib_dir(out_dir)
        .test(true);
    proof {
        assert(builder.externs.deep_view() =~= externs.deep_view().take(0));
    }
    let mut i: usize = 0;
    while i < externs.len()
        invariant
            i <= externs.len(),
            builder.edition == Some(manifest.edition),
            builder.crate_type == Some(CrateType::Bin),
            builder.crate_name matches Some(n) && n@ == test_crate_name(
                manifest.crate_name@,
                bin_path@,
            ),
            builder.out_dir matches Some(d) && d@ == out_dir@,
            builder.lib_dir matches Some(d) && d@ == out_dir@,
            builder.externs.deep_view() == externs.deep_view().take(i as int),
            builder.cfg.deep_view() == Seq::<Seq<char>>::empty(),
            builder.test,
        decreases externs.len() - i,
    {
        builder = builder.externs(externs[i].as_str());
        proof {
            assert(externs.deep_view().take(i + 1) =~= externs.deep_view().take(i as int).push(
                externs.deep_view()[i as int],
            ));
        }
        i = i + 1;
    }
    proof {
        assert(externs.deep_view().take(externs.len() as int) =~= externs.deep_view());
    }
    let invocation = match builder.done() {
        Ok(inv) => inv,
        Err(_) => unreached(),
    };
    proof {
        assert(invocation@ =~= test_invocation(manifest@, bin_path@, out_dir@, externs.deep_view()));
    }
    let s = CompileStep { log: None, invocation, source: String::from_str(bin_path) };
    proof {
        assert(s@ =~~= test_step(manifest@, bin_path@, out_dir@, externs.deep_view()));
    }
    s
}

/// The build plan of a project at `root` whose manifest is `manifest` and
/// whose entry points exist as stated by `lib_exists` and `main_exists`.
pub fn build(manifest: &Manifest, root: &str, lib_exists: bool, main_exists: bool) -> (r: Result<
    BuildPlan,
    FreightError,
>)
    ensures
        plan_result_view(r) == build_plan_spec(manifest@, root@, lib_exists, main_exists),
        r is Err <==> !lib_exists && !main_exists,
{
    let src_dir = join(root, "src");
    let lib_rs = join(src_dir.as_str(), "lib.rs");
    let main_rs = join(src_dir.as_str(), "main.rs");
    let target = join(root, "target");
    let target_debug = join(target.as_str(), "debug");
    match Shape::classify(lib_exists, main_exists) {
        Shape::LibAndBin => {
            let mut steps: Vec<CompileStep> = Vec::new();
            let ghost no_steps = steps;
            let first = lib_compile(manifest, lib_rs.as_str(), target_debug.as_str());
            let ghost first_value = first;
            steps.push(first);
            let ghost one_step = steps;
            let mut externs: Vec<String> = Vec::new();
            let ghost no_externs = externs;
            let own = manifest.crate_name.clone();
            let ghost own_value = own;
            externs.push(own);
            proof {
                lemma_deep_view_push(no_externs, externs, own_value);
                assert(externs.deep_view() =~= seq![manifest.crate_name@]);
            }
            let second = bin_compile(manifest, main_rs.as_str(), target_debug.as_str(), &externs);
            let ghost second_value = second;
            steps.push(second);
            proof {
                lemma_deep_view_push(no_steps, one_step, first_value);
                lemma_deep_view_push(one_step, steps, second_value);
                assert(no_steps.deep_view() =~= Seq::<CompileStepView>::empty());
            }
            let plan = BuildPlan { out_dir: target_debug, steps };
            proof {
                assert(plan@ =~~= (BuildPlanView {
                    out_dir: debug_dir(root@),
                    steps: seq![
                        lib_step(manifest@, lib_source(root@), debug_dir(root@)),
                        bin_step(
                            manifest@,
                            bin_source(root@),
                            debug_dir(root@),
                            seq![manifest@.crate_name],
                        ),
                    ],
                }));
            }
            Ok(plan)
        },
        Shape::LibOnly => {
            let mut steps: Vec<CompileStep> = Vec::new();
            let ghost no_steps = steps;
            let only = lib_compile(manifest, lib_rs.as_str(), target_debug.as_str());
            let ghost only_value = only;
            steps.push(only);
            proof {
                lemma_deep_view_push(no_steps, steps, only_value);
                assert(no_steps.deep_view() =~= Seq::<CompileStepView>::empty());
            }
            let plan = BuildPlan { out_dir: target_debug, steps };
            proof {
                assert(plan@ =~~= (BuildPlanView {
                    out_dir: debug_dir(root@),
                    steps: seq![lib_step(manifest@, lib_source(root@), debug_dir(root@))],
                }));
            }
            Ok(plan)
        },
        Shape::BinOnly => {
            let mut externs: Vec<String> = Vec::new();
            let ghost no_externs = externs;
            let own = manifest.crate_name.clone();
            let ghost own_value = own;
            externs.push(own);
            proof {
                lemma_deep_view_push(no_externs, externs, own_value);
                assert(externs.deep_view() =~= seq![manifest.crate_name@]);
            }
            let mut steps: Vec<CompileStep> = Vec::new();
            let ghost no_steps = steps;
            let only = bin_compile(manifest, main_rs.as_str(), target_debug.as_str(), &externs);
            let ghost only_value = only;
            steps.push(only);
            proof {
                lemma_deep_view_push(no_steps, steps, only_value);
                assert(no_steps.deep_view() =~= Seq::<CompileStepView>::empty());
            }
            let plan = BuildPlan { out_dir: target_debug, steps };
            proof {
                assert(plan@ =~~= (BuildPlanView {
                    out_dir: debug_dir(root@),
                    steps: seq![
                        bin_step(
                            manifest@,
                            bin_source(root@),
                            debug_dir(root@),
                            seq![manifest@.crate_name],
                        ),
                    ],
                }));
            }
            Ok(plan)
        },
        Shape::Neither => Err(FreightError::NothingToCompile),
    }
}

/// The test-build plan of a project at `root`: test compiles under
/// `target/debug/tests`, as `test_plan_spec` lays them out.
pub fn build_tests(manifest: &Manifest, root: &str, lib_exists: bool, main_exists: bool) -> (r:
    Result<BuildPlan, FreightError>)
    ensures
        plan_result_view(r) == test_plan_spec(manifest@, root@, lib_exists, main_exists),
        r is Err <==> !lib_exists && !main_exists,
{
    let src_dir = join(root, "src");
    let lib_rs = join(src_dir.as_str(), "lib.rs");
    let main_rs = join(src_dir.as_str(), "main.rs");
    let target = join(root, "target");
    let target_debug = join(target.as_str(), "debug");
    let target_tests = join(target_debug.as_str(), "tests");
    let no_externs: Vec<String> = Vec::new();
    proof {
        assert(no_externs.deep_view() =~= Seq::<Seq<char>>::empty());
    }
    match Shape::classify(lib_exists, main_exists) {
        Shape::LibAndBin => {
            let mut steps: Vec<CompileStep> = Vec::new();
            let ghost no_steps = steps;
            let first = test_compile(manifest, lib_rs.as_str(), target_tests.as_str(), &no_externs);
            let ghost first_value = first;
            steps.push(first);
            let ghost one_step = steps;
            let second = lib_compile(manifest, lib_rs.as_str(), target_tests.as_str());
            let ghost second_value = second;
            steps.push(second);
            let ghost two_steps = steps;
            let mut externs: Vec<String> = Vec::new();
            let ghost pre_externs = externs;
            let own = manifest.crate_name.clone();
            let ghost own_value = own;
            externs.push(own);
            proof {
                lemma_deep_view_push(pre_externs, externs, own_value);
                assert(externs.deep_view() =~= seq![manifest.crate_name@]);
            }
            let third = test_compile(manifest, main_rs.as_str(), target_tests.as_str(), &externs);
            let ghost third_value = third;
            steps.push(third);
            proof {
                lemma_deep_view_push(no_steps, one_step, first_value);
                lemma_deep_view_push(one_step, two_steps, second_value);
                lemma_deep_view_push(two_steps, steps, third_value);
                assert(no_steps.deep_view() =~= Seq::<CompileStepView>::empty());
            }
            let plan = BuildPlan { out_dir: target_tests, steps };
            proof {
                assert(plan@ =~~= (BuildPlanView {
                    out_dir: tests_dir(root@),
                    steps: seq![
                        test_step(manifest@, lib_source(root@), tests_dir(root@), Seq::empty()),
                        lib_step(manifest@, lib_source(root@), tests_dir(root@)),
                        test_step(
                            manifest@,
                            bin_source(root@),
                            tests_dir(root@),
                            seq![manifest@.crate_name],
                        ),
                    ],
                }));
            }
            Ok(plan)
        },
        Shape::LibOnly => {
            let mut steps: Vec<CompileStep> = Vec::new();
            let ghost no_steps = steps;
            let only = test_compile(manifest, lib_rs.as_str(), target_tests.as_str(), &no_externs);
            let ghost only_value = only;
            steps.push(only);
            proof {
                lemma_deep_view_push(no_steps, steps, only_value);
                assert(no_steps.deep_view() =~= Seq::<CompileStepView>::empty());
            }
            let plan = BuildPlan { out_dir: target_tests, steps };
            proof {
                assert(plan@ =~~= (BuildPlanView {
                    out_dir: tests_dir(root@),
                    steps: seq![
                        test_step(manifest@, lib_source(root@), tests_dir(root@), Seq::empty()),
                    ],
                }));
            }
            Ok(plan)
        },
        Shape::BinOnly => {
            let mut steps: Vec<CompileStep> = Vec::new();
            let ghost no_steps = steps;
            let only = test_compile(manifest, main_rs.as_str(), target_tests.as_str(), &no_externs);
            let ghost only_value = only;
            steps.push(only);
            proof {
                lemma_deep_view_push(no_steps, steps, only_value);
                assert(no_steps.deep_view() =~= Seq::<CompileStepView>::empty());
            }
            let plan = BuildPlan { out_dir: target_tests, steps };
            proof {
                assert(plan@ =~~= (BuildPlanView {
                    out_dir: tests_dir(root@),
                    steps: seq![
                        test_step(manifest@, bin_source(root@), tests_dir(root@), Seq::empty()),
                    ],
                }));
            }
            Ok(plan)
        },
        Shape::Neither => Err(FreightError::NothingToCompile),
    }
}

/// One test run of a plan: the notification to emit, if the binary has a
/// well-known role, and the path of the binary to spawn.
#[derive(Debug)]
pub struct RunStep {
    pub log: Option<LogEvent>,
    pub program: String,
}

/// The model of a test run.
#[verifier::ext_equal]
pub struct RunStepView {
    pub log: Option<LogEventView>,
    pub program: Seq<char>,
}

impl View for RunStep {
    type V = RunStepView;

    open spec fn view(&self) -> RunStepView {
        RunStepView {
            log: match self.log {
                Some(l) => Some(l@),
                None => None,
            },
            program: self.program@,
        }
    }
}

impl DeepView for RunStep {
    type V = RunStepView;

    open spec fn deep_view(&self) -> RunStepView {
        self.view()
    }
}

/// The documentation-test pass of a run plan: the notification to emit, the
/// invocation to render, and the library source to run it against.
#[derive(Debug)]
pub struct DocStep {
    pub log: LogEvent,
    pub rustdoc: RustDoc,
    pub source: String,
}

/// The model of a documentation-test pass.
#[verifier::ext_equal]
pub struct DocStepView {
    pub log: LogEventView,
    pub rustdoc: RustDocView,
    pub source: Seq<char>,
}

impl View for DocStep {
    type V = DocStepView;

    open spec fn view(&self) -> DocStepView {
        DocStepView { log: self.log@, rustdoc: self.rustdoc@, source: self.source@ }
    }
}

/// A test-run plan: the discovered test binaries to spawn in order, then
/// the documentation-test pass when the project has a library.
#[derive(Debug)]
pub struct RunPlan {
    pub runs: Vec<RunStep>,
    pub doc: Option<DocStep>,
}

/// The model of a test-run plan.
#[verifier::ext_equal]
pub struct RunPlanView {
    pub runs: Seq<RunStepView>,
    pub doc: Option<DocStepView>,
}

impl View for RunPlan {
    type V = RunPlanView;

    open spec fn view(&self) -> RunPlanView {
        RunPlanView {
            runs: self.runs.deep_view(),
            doc: match self.doc {
                Some(d) => Some(d@),
                None => None,
            },
        }
    }
}

/// The notification owed before a test binary runs: the executable and
/// library unit-test binaries are known by their exact names; any other
/// binary runs without a named notification.
pub open spec fn run_log_for(package: Seq<char>, entry: Seq<char>) -> Option<LogEventView> {
    if entry == "test_"@ + package + "_main"@ {
        Some(LogEventView::MainUnitTest)
    } else if entry == "test_"@ + package + "_lib"@ {
        Some(LogEventView::LibUnitTest)
    } else {
        None
    }
}

/// The run of one discovered test binary.
pub open spec fn run_step_for(package: Seq<char>, dir: Seq<char>, entry: Seq<char>) -> RunStepView {
    RunStepView { log: run_log_for(package, entry), program: join_path(dir, entry) }
}

/// The runs a directory listing gives: one per extensionless entry, in the
/// listed order.
pub open spec fn run_steps_spec(
    package: Seq<char>,
    dir: Seq<char>,
    entries: Seq<Seq<char>>,
) -> Seq<RunStepView>
    decreases entries.len(),
{
    if entries.len() == 0 {
        Seq::empty()
    } else {
        let rest = run_steps_spec(package, dir, entries.drop_last());
        if extensionless(entries.last()) {
            rest.push(run_step_for(package, dir, entries.last()))
        } else {
            rest
        }
    }
}

/// The plan of `run_tests` over the entries listed in the test output
/// directory: the test binaries in listed order, then the
/// documentation-test pass when the library entry point exists.
pub open spec fn run_plan_spec(
    m: ManifestView,
    root: Seq<char>,
    entries: Seq<Seq<char>>,
    lib_exists: bool,
) -> RunPlanView {
    RunPlanView {
        runs: run_steps_spec(m.crate_name, tests_dir(root), entries),
        doc: if lib_exists {
            Some(
                DocStepView {
                    log: LogEventView::DocTest(m.crate_name),
                    rustdoc: RustDocView {
                        edition: m.edition,
                        crate_name: m.crate_name,
                        lib_path: debug_dir(root),
                    },
                    source: lib_source(root),
                },
            )
        } else {
            None
        },
    }
}

/// The test-run plan of a project at `root`, over the file names listed in
/// its test output directory in their listed order.
pub fn run_tests(manifest: &Manifest, root: &str, entries: &Vec<String>, lib_exists: bool) -> (r:
    RunPlan)
    ensures
        r@ == run_plan_spec(manifest@, root@, entries.deep_view(), lib_exists),
{
    let target = join(root, "target");
    let target_debug = join(target.as_str(), "debug");
    let target_tests = join(target_debug.as_str(), "tests");
    let main_name = String::from_str("test_").concat(manifest.crate_name.as_str()).concat("_main");
    let lib_name = String::from_str("test_").concat(manifest.crate_name.as_str()).concat("_lib");
    let mut runs: Vec<RunStep> = Vec::new();
    proof {
        assert(runs.deep_view() =~= run_steps_spec(
            manifest@.crate_name,
            tests_dir(root@),
            entries.deep_view().take(0),
        ));
    }
    let mut i: usize = 0;
    while i < entries.len()
        invariant
            i <= entries.len(),
            target_tests@ == tests_dir(root@),
            main_name@ == "test_"@ + manifest.crate_name@ + "_main"@,
            lib_name@ == "test_"@ + manifest.crate_name@ + "_lib"@,
            runs.deep_view() == run_steps_spec(
                manifest@.crate_name,
                tests_dir(root@),
                entries.deep_view().take(i as int),
            ),
        decreases entries.len() - i,
    {
        proof {
            assert(entries.deep_view().take(i + 1).drop_last() =~= entries.deep_view().take(
                i as int,
            ));
            assert(entries.deep_view().take(i + 1).last() == entries.deep_view()[i as int]);
        }
        let entry = &entries[i];
        if paths::has_no_extension(entry.as_str()) {
            let log: Option<LogEvent> = if *entry == main_name {
                Some(LogEvent::MainUnitTest)
            } else if *entry == lib_name {
                Some(LogEvent::LibUnitTest)
            } else {
                None
            };
            let step = RunStep { log, program: join(target_tests.as_str(), entry.as_str()) };
            let ghost step_value = step;
            let ghost pre = runs;
            runs.push(step);
            proof {
                lemma_deep_view_push(pre, runs, step_value);
                assert(step_value@ =~= run_step_for(
                    manifest@.crate_name,
                    tests_dir(root@),
                    entries.deep_view()[i as int],
                ));
            }
        }
        i = i + 1;
    }
    proof {
        assert(entries.deep_view().take(entries.len() as int) =~= entries.deep_view());
    }
    let doc: Option<DocStep> = if lib_exists {
        let src_dir = join(root, "src");
        let lib_rs = join(src_dir.as_str(), "lib.rs");
        Some(
            DocStep {
                log: LogEvent::DocTest(manifest.crate_name.clone()),
                rustdoc: RustDoc::new(manifest.edition, manifest.crate_name.clone(), target_debug),
                source: lib_rs,
            },
        )
    } else {
        None
    };
    let plan = RunPlan { runs, doc };
    proof {
        assert(plan@ =~~= run_plan_spec(manifest@, root@, entries.deep_view(), lib_exists));
    }
    plan
}

/// The project root: the first of `ancestors` whose manifest exists, where
/// `has_manifest[i]` states whether `ancestors[i]` holds one. The walk is
/// from the innermost directory outward, so the caller lists the ancestors
/// starting at the working directory.
pub fn root_dir(ancestors: &Vec<String>, has_manifest: &Vec<bool>) -> (r: Result<
    String,
    FreightError,
>)
    requires
        ancestors@.len() == has_manifest@.len(),
    ensures
        r is Ok <==> (exists|i: int| 0 <= i < has_manifest@.len() && has_manifest@[i]),
        r matches Ok(root) ==> (exists|i: int|
            {
                &&& 0 <= i < has_manifest@.len()
                &&& has_manifest@[i]
                &&& root@ == ancestors@[i]@
                &&& forall|j: int| 0 <= j < i ==> !has_manifest@[j]
            }),
        r matches Err(e) ==> e == FreightError::ManifestNotFound,
{
    let mut i: usize = 0;
    while i < has_manifest.len()
        invariant
            ancestors@.len() == has_manifest@.len(),
            i <= has_manifest@.len(),
            forall|j: int| 0 <= j < i ==> !has_manifest@[j],
        decreases has_manifest@.len() - i,
    {
        if has_manifest[i] {
            return Ok(ancestors[i].clone());
        }
        i = i + 1;
    }
    Err(FreightError::ManifestNotFound)
}

} // verus!

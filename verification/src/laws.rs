//! Laws of the engine: properties that hold of every plan, stated over the
//! same models the planners' contracts use.

use crate::rustc::{
    crate_type_text, edition_text, lemma_pair_args_at, lemma_pair_args_elem, lemma_pair_args_len,
    pair_args, CrateType, RustcView,
};
use crate::{
    build_plan_spec, plan_result_view, test_plan_spec, BuildPlan, BuildPlanView, FreightError,
    ManifestView,
};
use vstd::prelude::*;

verus! {

/// For a project with both entry points, the build plan compiles the
/// library strictly before the executable, and the executable invocation
/// links the package name as an external dependency.
pub proof fn lemma_build_lib_before_bin(m: ManifestView, root: Seq<char>)
    ensures
        build_plan_spec(m, root, true, true) matches Ok(p) && {
            &&& p.steps.len() == 2
            &&& p.steps[0].invocation.crate_type == CrateType::Lib
            &&& p.steps[1].invocation.crate_type == CrateType::Bin
            &&& p.steps[1].invocation.externs == seq![m.crate_name]
        },
{
}

/// For a project with only a library entry point, the build plan holds
/// exactly one invocation, of output kind `Lib`: no step produces an
/// executable.
pub proof fn lemma_build_lib_only(m: ManifestView, root: Seq<char>)
    ensures
        build_plan_spec(m, root, true, false) matches Ok(p) && {
            &&& p.steps.len() == 1
            &&& p.steps[0].invocation.crate_type == CrateType::Lib
            &&& forall|i: int|
                0 <= i < p.steps.len() ==> p.steps[i].invocation.crate_type != CrateType::Bin
        },
{
}

/// For a project with neither entry point, both the build plan and the
/// test-build plan are the `NothingToCompile` condition: no invocation is
/// made.
pub proof fn lemma_nothing_to_compile(m: ManifestView, root: Seq<char>)
    ensures
        build_plan_spec(m, root, false, false) == Err::<BuildPlanView, FreightError>(
            FreightError::NothingToCompile,
        ),
        test_plan_spec(m, root, false, false) == Err::<BuildPlanView, FreightError>(
            FreightError::NothingToCompile,
        ),
{
}

/// An argument that cannot be mistaken for the output-directory or
/// search-directory flag.
pub open spec fn plain_arg(s: Seq<char>) -> bool {
    s != "--out-dir"@ && s != "-L"@
}

/// The rendered argument list round-trips the configuration. Together with
/// `lemma_extern_pair_slot` and `lemma_cfg_pair_slot`, which put each
/// configured `--extern` and `--cfg` pair at the one slot its insertion
/// order gives it, this pins the list's exact length and lets the
/// output-directory and search-directory flags stand exactly once each —
/// provided no configured value spells one of those two flags itself.
#[verifier::rlimit(100)]
pub proof fn lemma_args_round_trip(inv: RustcView, source: Seq<char>)
    requires
        plain_arg(source),
        plain_arg(inv.crate_name),
        plain_arg(inv.out_dir),
        plain_arg(inv.lib_dir),
        forall|i: int| 0 <= i < inv.externs.len() ==> plain_arg(#[trigger] inv.externs[i]),
        forall|i: int| 0 <= i < inv.cfg.len() ==> plain_arg(#[trigger] inv.cfg[i]),
    ensures
        inv.args_spec(source).len() == 11 + 2 * inv.externs.len() + 2 * inv.cfg.len() + (
        if inv.test {
            1int
        } else {
            0int
        }),
        inv.args_spec(source)[7] == "--out-dir"@,
        inv.args_spec(source)[8] == inv.out_dir,
        inv.args_spec(source)[9] == "-L"@,
        inv.args_spec(source)[10] == inv.lib_dir,
        forall|j: int|
            0 <= j < inv.args_spec(source).len() && j != 7 ==> inv.args_spec(source)[j]
                != "--out-dir"@,
        forall|j: int|
            0 <= j < inv.args_spec(source).len() && j != 9 ==> inv.args_spec(source)[j] != "-L"@,
{
    reveal_strlit("--out-dir");
    reveal_strlit("-L");
    assert("--out-dir"@.len() == 9);
    assert("-L"@.len() == 2);
    lemma_pair_args_len("--extern"@, inv.externs);
    lemma_pair_args_len("--cfg"@, inv.cfg);
    let base = inv.base_args(source);
    let ex = pair_args("--extern"@, inv.externs);
    let cf = pair_args("--cfg"@, inv.cfg);
    let tail: Seq<Seq<char>> = if inv.test {
        seq!["--test"@]
    } else {
        Seq::<Seq<char>>::empty()
    };
    let args = inv.args_spec(source);
    assert(args == base + ex + cf + tail);
    assert(base.len() == 11);
    assert forall|j: int| 0 <= j < args.len() && j != 7 implies args[j] != "--out-dir"@ by {
        lemma_flag_absent(inv, source, j, "--out-dir"@);
    }
    assert forall|j: int| 0 <= j < args.len() && j != 9 implies args[j] != "-L"@ by {
        lemma_flag_absent(inv, source, j, "-L"@);
    }
}

/// Part of the round trip: the `--extern` pair of item `i` stands exactly
/// at the two slots its insertion order gives it, right after the fixed
/// head of the list.
pub proof fn lemma_extern_pair_slot(inv: RustcView, source: Seq<char>, i: int)
    requires
        0 <= i < inv.externs.len(),
    ensures
        inv.args_spec(source)[11 + 2 * i] == "--extern"@,
        inv.args_spec(source)[11 + 2 * i + 1] == inv.externs[i],
{
    lemma_pair_args_len("--extern"@, inv.externs);
    lemma_pair_args_len("--cfg"@, inv.cfg);
    lemma_pair_args_at("--extern"@, inv.externs, i);
    let base = inv.base_args(source);
    let ex = pair_args("--extern"@, inv.externs);
    assert(base.len() == 11);
    assert(inv.args_spec(source)[11 + 2 * i] == ex[2 * i]);
    assert(inv.args_spec(source)[11 + 2 * i + 1] == ex[2 * i + 1]);
}

/// Part of the round trip: the `--cfg` pair of item `i` stands exactly at
/// the two slots its insertion order gives it, right after the `--extern`
/// pairs.
pub proof fn lemma_cfg_pair_slot(inv: RustcView, source: Seq<char>, i: int)
    requires
        0 <= i < inv.cfg.len(),
    ensures
        inv.args_spec(source)[11 + 2 * inv.externs.len() + 2 * i] == "--cfg"@,
        inv.args_spec(source)[11 + 2 * inv.externs.len() + 2 * i + 1] == inv.cfg[i],
{
    lemma_pair_args_len("--extern"@, inv.externs);
    lemma_pair_args_len("--cfg"@, inv.cfg);
    lemma_pair_args_at("--cfg"@, inv.cfg, i);
    let base = inv.base_args(source);
    let ex = pair_args("--extern"@, inv.externs);
    let cf = pair_args("--cfg"@, inv.cfg);
    assert(base.len() == 11);
    assert(inv.args_spec(source)[11 + 2 * inv.externs.len() + 2 * i] == cf[2 * i]);
    assert(inv.args_spec(source)[11 + 2 * inv.externs.len() + 2 * i + 1] == cf[2 * i + 1]);
}

/// Outside its own slot, no slot of the rendered list holds `flag`, one of
/// the two directory flags, as long as no configured value spells it.
proof fn lemma_flag_absent(inv: RustcView, source: Seq<char>, j: int, flag: Seq<char>)
    requires
        flag == "--out-dir"@ || flag == "-L"@,
        plain_arg(source),
        plain_arg(inv.crate_name),
        plain_arg(inv.out_dir),
        plain_arg(inv.lib_dir),
        forall|i: int| 0 <= i < inv.externs.len() ==> plain_arg(#[trigger] inv.externs[i]),
        forall|i: int| 0 <= i < inv.cfg.len() ==> plain_arg(#[trigger] inv.cfg[i]),
        0 <= j < inv.args_spec(source).len(),
        flag == "--out-dir"@ ==> j != 7,
        flag == "-L"@ ==> j != 9,
    ensures
        inv.args_spec(source)[j] != flag,
{
    reveal_strlit("--edition");
    reveal_strlit("--crate-type");
    reveal_strlit("--crate-name");
    reveal_strlit("--out-dir");
    reveal_strlit("-L");
    reveal_strlit("--extern");
    reveal_strlit("--cfg");
    reveal_strlit("--test");
    reveal_strlit("2015");
    reveal_strlit("2018");
    reveal_strlit("2021");
    reveal_strlit("bin");
    reveal_strlit("lib");
    reveal_strlit("rlib");
    reveal_strlit("dylib");
    reveal_strlit("cdylib");
    reveal_strlit("staticlib");
    reveal_strlit("proc-macro");
    lemma_pair_args_len("--extern"@, inv.externs);
    lemma_pair_args_len("--cfg"@, inv.cfg);
    assert("--out-dir"@.len() == 9);
    assert("-L"@.len() == 2);
    assert("--test"@.len() == 6);
    assert("--extern"@.len() == 8);
    assert("--cfg"@.len() == 5);
    assert("--crate-type"@.len() == 12);
    assert("--crate-name"@.len() == 12);
    let base = inv.base_args(source);
    let ex = pair_args("--extern"@, inv.externs);
    let cf = pair_args("--cfg"@, inv.cfg);
    let tail: Seq<Seq<char>> = if inv.test {
        seq!["--test"@]
    } else {
        Seq::<Seq<char>>::empty()
    };
    let args = inv.args_spec(source);
    assert(args == base + ex + cf + tail);
    assert(base.len() == 11);
    assert("--edition"@ != "--out-dir"@) by {
        assert("--edition"@[2] != "--out-dir"@[2]);
    }
    assert(edition_text(inv.edition) != "--out-dir"@ && edition_text(inv.edition) != "-L"@) by {
        assert(edition_text(inv.edition).len() == 4);
    }
    assert(crate_type_text(inv.crate_type) != "--out-dir"@ && crate_type_text(inv.crate_type)
        != "-L"@) by {
        match inv.crate_type {
            CrateType::Bin => {
                assert("bin"@.len() == 3);
            },
            CrateType::Lib => {
                assert("lib"@.len() == 3);
            },
            CrateType::RLib => {
                assert("rlib"@.len() == 4);
            },
            CrateType::DyLib => {
                assert("dylib"@.len() == 5);
            },
            CrateType::CDyLib => {
                assert("cdylib"@.len() == 6);
            },
            CrateType::StaticLib => {
                assert("staticlib"@.len() == 9);
                assert("staticlib"@[0] != "--out-dir"@[0]);
            },
            CrateType::ProcMacro => {
                assert("proc-macro"@.len() == 10);
            },
        }
        assert("--out-dir"@.len() == 9);
        assert("-L"@.len() == 2);
    }
    if j < 11 {
        assert(args[j] == base[j]);
    } else if j < 11 + ex.len() {
        assert(args[j] == ex[j - 11]);
        lemma_pair_args_elem("--extern"@, inv.externs, j - 11);
        if ex[j - 11] != "--extern"@ {
            let i = choose|i: int| 0 <= i < inv.externs.len() && ex[j - 11] == inv.externs[i];
            assert(plain_arg(inv.externs[i]));
        }
    } else if j < 11 + ex.len() + cf.len() {
        assert(args[j] == cf[j - 11 - ex.len()]);
        lemma_pair_args_elem("--cfg"@, inv.cfg, j - 11 - ex.len());
        if cf[j - 11 - ex.len()] != "--cfg"@ {
            let i = choose|i: int| 0 <= i < inv.cfg.len() && cf[j - 11 - ex.len()] == inv.cfg[i];
            assert(plain_arg(inv.cfg[i]));
        }
    } else {
        assert(inv.test);
        assert(args[j] == tail[j - 11 - ex.len() - cf.len()]);
        assert(args[j] == "--test"@);
    }
}

/// Building is idempotent: two build results over one manifest, root and
/// project shape describe the same plan, so running them overwrites the
/// same artifacts with the same invocations.
pub proof fn lemma_build_idempotent(
    m: ManifestView,
    root: Seq<char>,
    lib_exists: bool,
    main_exists: bool,
    r1: Result<BuildPlan, FreightError>,
    r2: Result<BuildPlan, FreightError>,
)
    requires
        plan_result_view(r1) == build_plan_spec(m, root, lib_exists, main_exists),
        plan_result_view(r2) == build_plan_spec(m, root, lib_exists, main_exists),
    ensures
        plan_result_view(r1) == plan_result_view(r2),
{
}

} // verus!

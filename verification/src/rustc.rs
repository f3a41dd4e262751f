//! Toolchain invocations: an immutable description of one compiler run,
//! built incrementally and rendered as the ordered argument list handed to
//! the compiler.

use vstd::prelude::*;

verus! {

/// A language edition, passed to the compiler with `--edition`.
#[derive(Clone, Copy, PartialEq, Eq, Structural, Debug)]
pub enum Edition {
    E2015,
    E2018,
    E2021,
}

/// The textual form of an edition as it stands on the command line.
pub open spec fn edition_text(e: Edition) -> Seq<char> {
    match e {
        Edition::E2015 => "2015"@,
        Edition::E2018 => "2018"@,
        Edition::E2021 => "2021"@,
    }
}

impl Edition {
    /// Renders the edition as the value given to `--edition`.
    pub fn text(&self) -> (r: &'static str)
        ensures
            r@ == edition_text(*self),
    {
        match self {
            Edition::E2015 => "2015",
            Edition::E2018 => "2018",
            Edition::E2021 => "2021",
        }
    }
}

/// The kind of artifact one invocation produces, passed with `--crate-type`.
#[derive(Clone, Copy, PartialEq, Eq, Structural, Debug)]
pub enum CrateType {
    Bin,
    Lib,
    RLib,
    DyLib,
    CDyLib,
    StaticLib,
    ProcMacro,
}

/// The textual form of an output kind as it stands on the command line.
pub open spec fn crate_type_text(t: CrateType) -> Seq<char> {
    match t {
        CrateType::Bin => "bin"@,
        CrateType::Lib => "lib"@,
        CrateType::RLib => "rlib"@,
        CrateType::DyLib => "dylib"@,
        CrateType::CDyLib => "cdylib"@,
        CrateType::StaticLib => "staticlib"@,
        CrateType::ProcMacro => "proc-macro"@,
    }
}

impl CrateType {
    /// Renders the output kind as the value given to `--crate-type`.
    pub fn text(&self) -> (r: &'static str)
        ensures
            r@ == crate_type_text(*self),
    {
        match self {
            CrateType::Bin => "bin",
            CrateType::Lib => "lib",
            CrateType::RLib => "rlib",
            CrateType::DyLib => "dylib",
            CrateType::CDyLib => "cdylib",
            CrateType::StaticLib => "staticlib",
            CrateType::ProcMacro => "proc-macro",
        }
    }
}

/// The model of a finished invocation: every field the rendering reads.
#[verifier::ext_equal]
pub struct RustcView {
    pub edition: Edition,
    pub crate_type: CrateType,
    pub crate_name: Seq<char>,
    pub out_dir: Seq<char>,
    pub lib_dir: Seq<char>,
    pub externs: Seq<Seq<char>>,
    pub cfg: Seq<Seq<char>>,
    pub test: bool,
}

/// The flag `flag` paired with each of `items` in turn, in order.
pub open spec fn pair_args(flag: Seq<char>, items: Seq<Seq<char>>) -> Seq<Seq<char>>
    decreases items.len(),
{
    if items.len() == 0 {
        Seq::empty()
    } else {
        pair_args(flag, items.drop_last()).push(flag).push(items.last())
    }
}

/// The rendered pairs take twice as many slots as there are items.
pub proof fn lemma_pair_args_len(flag: Seq<char>, items: Seq<Seq<char>>)
    ensures
        pair_args(flag, items).len() == 2 * items.len(),
    decreases items.len(),
{
    if items.len() > 0 {
        lemma_pair_args_len(flag, items.drop_last());
    }
}

/// The pair of item `i` stands at slots `2 * i` and `2 * i + 1`.
pub proof fn lemma_pair_args_at(flag: Seq<char>, items: Seq<Seq<char>>, i: int)
    requires
        0 <= i < items.len(),
    ensures
        pair_args(flag, items)[2 * i] == flag,
        pair_args(flag, items)[2 * i + 1] == items[i],
    decreases items.len(),
{
    lemma_pair_args_len(flag, items);
    lemma_pair_args_len(flag, items.drop_last());
    if i < items.len() - 1 {
        lemma_pair_args_at(flag, items.drop_last(), i);
        assert(items.drop_last()[i] == items[i]);
    }
}

/// Slot `j` of the rendered pairs holds the flag or one of the items.
pub proof fn lemma_pair_args_elem(flag: Seq<char>, items: Seq<Seq<char>>, j: int)
    requires
        0 <= j < pair_args(flag, items).len(),
    ensures
        pair_args(flag, items)[j] == flag || (exists|i: int|
            0 <= i < items.len() && pair_args(flag, items)[j] == items[i]),
    decreases items.len(),
{
    lemma_pair_args_len(flag, items);
    lemma_pair_args_len(flag, items.drop_last());
    let p = pair_args(flag, items);
    let q = pair_args(flag, items.drop_last());
    if j < q.len() {
        lemma_pair_args_elem(flag, items.drop_last(), j);
        assert(p[j] == q[j]);
        if q[j] != flag {
            let i = choose|i: int| 0 <= i < items.drop_last().len() && q[j] == items.drop_last()[i];
            assert(items.drop_last()[i] == items[i]);
            assert(p[j] == items[i]);
        }
    } else if j == q.len() + 1 {
        assert(p[j] == items[items.len() - 1]);
    }
}

impl RustcView {
    /// The fixed head of the argument list: source path, then the edition,
    /// output-kind, package-name, output-directory and search-directory
    /// flags, each with its value.
    pub open spec fn base_args(self, source: Seq<char>) -> Seq<Seq<char>> {
        seq![
            source,
            "--edition"@,
            edition_text(self.edition),
            "--crate-type"@,
            crate_type_text(self.crate_type),
            "--crate-name"@,
            self.crate_name,
            "--out-dir"@,
            self.out_dir,
            "-L"@,
            self.lib_dir,
        ]
    }

    /// The whole rendered argument list: the fixed head, each `--extern`
    /// pair in insertion order, each `--cfg` pair in insertion order, and
    /// `--test` when the invocation is a test build.
    pub open spec fn args_spec(self, source: Seq<char>) -> Seq<Seq<char>> {
        self.base_args(source) + pair_args("--extern"@, self.externs) + pair_args(
            "--cfg"@,
            self.cfg,
        ) + (if self.test {
            seq!["--test"@]
        } else {
            Seq::<Seq<char>>::empty()
        })
    }
}

/// A finished, immutable invocation of the compiler.
#[derive(Debug)]
pub struct Rustc {
    pub edition: Edition,
    pub crate_type: CrateType,
    pub crate_name: String,
    pub out_dir: String,
    pub lib_dir: String,
    pub externs: Vec<String>,
    pub cfg: Vec<String>,
    pub test: bool,
}

impl View for Rustc {
    type V = RustcView;

    open spec fn view(&self) -> RustcView {
        RustcView {
            edition: self.edition,
            crate_type: self.crate_type,
            crate_name: self.crate_name@,
            out_dir: self.out_dir@,
            lib_dir: self.lib_dir@,
            externs: self.externs.deep_view(),
            cfg: self.cfg.deep_view(),
            test: self.test,
        }
    }
}

/// Pushing onto a vector extends its element-wise view by the element's.
pub proof fn lemma_deep_view_push<T: DeepView>(pre: Vec<T>, post: Vec<T>, x: T)
    requires
        post@ == pre@.push(x),
    ensures
        post.deep_view() == pre.deep_view().push(x.deep_view()),
{
    let lhs = post.deep_view();
    let rhs = pre.deep_view().push(x.deep_view());
    assert forall|i: int| 0 <= i < lhs.len() implies lhs[i] == rhs[i] by {
        if i < pre@.len() {
            assert(post@[i] == pre@[i]);
        } else {
            assert(post@[i] == x);
        }
    }
    assert(lhs =~= rhs);
}

/// The required field that a finalization found missing.
#[derive(Clone, Copy, PartialEq, Eq, Structural, Debug)]
pub enum RustcError {
    MissingCrateType,
    MissingCrateName,
    MissingOutDir,
    MissingLibDir,
}

/// An invocation under construction: optional fields accumulate until
/// `done` checks the required ones and finishes the value.
#[derive(Debug)]
pub struct RustcBuilder {
    pub edition: Option<Edition>,
    pub crate_type: Option<CrateType>,
    pub crate_name: Option<String>,
    pub out_dir: Option<String>,
    pub lib_dir: Option<String>,
    pub externs: Vec<String>,
    pub cfg: Vec<String>,
    pub test: bool,
}

impl RustcBuilder {
    /// Whether every required field has been set.
    pub open spec fn complete(self) -> bool {
        &&& self.crate_type is Some
        &&& self.crate_name is Some
        &&& self.out_dir is Some
        &&& self.lib_dir is Some
    }

    /// The invocation a complete builder finishes to; the edition falls
    /// back to the oldest supported one.
    pub open spec fn finish_view(self) -> RustcView
        recommends
            self.complete(),
    {
        RustcView {
            edition: match self.edition {
                Some(e) => e,
                None => Edition::E2015,
            },
            crate_type: self.crate_type.unwrap(),
            crate_name: self.crate_name.unwrap()@,
            out_dir: self.out_dir.unwrap()@,
            lib_dir: self.lib_dir.unwrap()@,
            externs: self.externs.deep_view(),
            cfg: self.cfg.deep_view(),
            test: self.test,
        }
    }

    /// Sets the edition.
    pub fn edition(self, e: Edition) -> (r: Self)
        ensures
            r == (RustcBuilder { edition: Some(e), ..self }),
    {
        RustcBuilder { edition: Some(e), ..self }
    }

    /// Sets the output kind.
    pub fn crate_type(self, t: CrateType) -> (r: Self)
        ensures
            r == (RustcBuilder { crate_type: Some(t), ..self }),
    {
        RustcBuilder { crate_type: Some(t), ..self }
    }

    /// Sets the package name.
    pub fn crate_name(self, name: &str) -> (r: Self)
        ensures
            r.crate_name matches Some(n) && n@ == name@,
            r == (RustcBuilder { crate_name: r.crate_name, ..self }),
    {
        RustcBuilder { crate_name: Some(String::from_str(name)), ..self }
    }

    /// Sets the output directory.
    pub fn out_dir(self, dir: &str) -> (r: Self)
        ensures
            r.out_dir matches Some(d) && d@ == dir@,
            r == (RustcBuilder { out_dir: r.out_dir, ..self }),
    {
        RustcBuilder { out_dir: Some(String::from_str(dir)), ..self }
    }

    /// Sets the library search directory.
    pub fn lib_dir(self, dir: &str) -> (r: Self)
        ensures
            r.lib_dir matches Some(d) && d@ == dir@,
            r == (RustcBuilder { lib_dir: r.lib_dir, ..self }),
    {
        RustcBuilder { lib_dir: Some(String::from_str(dir)), ..self }
    }

    /// Appends one external-dependency link name.
    pub fn externs(self, ex: &str) -> (r: Self)
        ensures
            r.externs.deep_view() == self.externs.deep_view().push(ex@),
            r == (RustcBuilder { externs: r.externs, ..self }),
    {
        let mut externs = self.externs;
        let ghost pre = externs;
        let item = String::from_str(ex);
        externs.push(item);
        proof {
            lemma_deep_view_push(pre, externs, item);
        }
        RustcBuilder {
            edition: self.edition,
            crate_type: self.crate_type,
            crate_name: self.crate_name,
            out_dir: self.out_dir,
            lib_dir: self.lib_dir,
            externs,
            cfg: self.cfg,
            test: self.test,
        }
    }

    /// Appends one conditional-compilation flag.
    pub fn cfg(self, flag: &str) -> (r: Self)
        ensures
            r.cfg.deep_view() == self.cfg.deep_view().push(flag@),
            r == (RustcBuilder { cfg: r.cfg, ..self }),
    {
        let mut cfg = self.cfg;
        let ghost pre = cfg;
        let item = String::from_str(flag);
        cfg.push(item);
        proof {
            lemma_deep_view_push(pre, cfg, item);
        }
        RustcBuilder {
            edition: self.edition,
            crate_type: self.crate_type,
            crate_name: self.crate_name,
            out_dir: self.out_dir,
            lib_dir: self.lib_dir,
            externs: self.externs,
            cfg,
            test: self.test,
        }
    }

    /// Sets the test-mode flag.
    pub fn test(self, test: bool) -> (r: Self)
        ensures
            r == (RustcBuilder { test, ..self }),
    {
        RustcBuilder { test, ..self }
    }

    /// Checks the required fields and finishes the invocation. Each missing
    /// required field is a caller-visible error, reported in a fixed order.
    pub fn done(self) -> (r: Result<Rustc, RustcError>)
        ensures
            r is Ok <==> self.complete(),
            self.complete() ==> (r matches Ok(inv) && inv@ == self.finish_view()),
            self.crate_type is None ==> r == Err::<Rustc, RustcError>(RustcError::MissingCrateType),
            self.crate_type is Some && self.crate_name is None ==> r == Err::<Rustc, RustcError>(
                RustcError::MissingCrateName,
            ),
            self.crate_type is Some && self.crate_name is Some && self.out_dir is None ==> r
                == Err::<Rustc, RustcError>(RustcError::MissingOutDir),
            self.crate_type is Some && self.crate_name is Some && self.out_dir is Some
                && self.lib_dir is None ==> r == Err::<Rustc, RustcError>(
                RustcError::MissingLibDir,
            ),
    {
        let crate_type = match self.crate_type {
            Some(t) => t,
            None => {
                return Err(RustcError::MissingCrateType);
            },
        };
        let crate_name = match self.crate_name {
            Some(n) => n,
            None => {
                return Err(RustcError::MissingCrateName);
            },
        };
        let out_dir = match self.out_dir {
            Some(d) => d,
            None => {
                return Err(RustcError::MissingOutDir);
            },
        };
        let lib_dir = match self.lib_dir {
            Some(d) => d,
            None => {
                return Err(RustcError::MissingLibDir);
            },
        };
        let edition = match self.edition {
            Some(e) => e,
            None => Edition::E2015,
        };
        let inv = Rustc {
            edition,
            crate_type,
            crate_name,
            out_dir,
            lib_dir,
            externs: self.externs,
            cfg: self.cfg,
            test: self.test,
        };
        proof {
            assert(inv@ =~= self.finish_view());
        }
        Ok(inv)
    }
}

impl Rustc {
    /// A builder with nothing set.
    pub fn builder() -> (b: RustcBuilder)
        ensures
            b.edition is None,
            b.crate_type is None,
            b.crate_name is None,
            b.out_dir is None,
            b.lib_dir is None,
            b.externs.deep_view() == Seq::<Seq<char>>::empty(),
            b.cfg.deep_view() == Seq::<Seq<char>>::empty(),
            !b.test,
    {
        let b = RustcBuilder {
            edition: None,
            crate_type: None,
            crate_name: None,
            out_dir: None,
            lib_dir: None,
            externs: Vec::new(),
            cfg: Vec::new(),
            test: false,
        };
        proof {
            assert(b.externs.deep_view() =~= Seq::<Seq<char>>::empty());
            assert(b.cfg.deep_view() =~= Seq::<Seq<char>>::empty());
        }
        b
    }

    /// Renders the invocation as the ordered argument list for a run on the
    /// given source path.
    pub fn args(&self, source: &str) -> (r: Vec<String>)
        ensures
            r.deep_view() == self@.args_spec(source@),
    {
        let mut r: Vec<String> = Vec::new();
        r.push(String::from_str(source));
        r.push(String::from_str("--edition"));
        r.push(String::from_str(self.edition.text()));
        r.push(String::from_str("--crate-type"));
        r.push(String::from_str(self.crate_type.text()));
        r.push(String::from_str("--crate-name"));
        r.push(self.crate_name.clone());
        r.push(String::from_str("--out-dir"));
        r.push(self.out_dir.clone());
        r.push(String::from_str("-L"));
        r.push(self.lib_dir.clone());
        proof {
            assert(r.deep_view() =~= self@.base_args(source@));
        }
        let mut i: usize = 0;
        while i < self.externs.len()
            invariant
                i <= self.externs.len(),
                self@.externs == self.externs.deep_view(),
                r.deep_view() == self@.base_args(source@) + pair_args(
                    "--extern"@,
                    self@.externs.take(i as int),
                ),
            decreases self.externs.len() - i,
        {
            let ghost snapshot = r;
            let flag = String::from_str("--extern");
            let ghost flag_value = flag;
            r.push(flag);
            let ghost mid = r;
            let item = self.externs[i].clone();
            let ghost item_value = item;
            r.push(item);
            proof {
                lemma_deep_view_push(snapshot, mid, flag_value);
                lemma_deep_view_push(mid, r, item_value);
                assert(self@.externs.take(i + 1).drop_last() =~= self@.externs.take(i as int));
                assert(self@.externs.take(i + 1).last() == self@.externs[i as int]);
                assert(r.deep_view() =~= self@.base_args(source@) + pair_args(
                    "--extern"@,
                    self@.externs.take(i + 1),
                ));
            }
            i = i + 1;
        }
        proof {
            assert(self@.externs.take(self.externs.len() as int) =~= self@.externs);
        }
        let ghost with_externs = self@.base_args(source@) + pair_args("--extern"@, self@.externs);
        let mut k: usize = 0;
        while k < self.cfg.len()
            invariant
                k <= self.cfg.len(),
                self@.cfg == self.cfg.deep_view(),
                with_externs == self@.base_args(source@) + pair_args("--extern"@, self@.externs),
                r.deep_view() == with_externs + pair_args("--cfg"@, self@.cfg.take(k as int)),
            decreases self.cfg.len() - k,
        {
            let ghost snapshot = r;
            let flag = String::from_str("--cfg");
            let ghost flag_value = flag;
            r.push(flag);
            let ghost mid = r;
            let item = self.cfg[k].clone();
            let ghost item_value = item;
            r.push(item);
            proof {
                lemma_deep_view_push(snapshot, mid, flag_value);
                lemma_deep_view_push(mid, r, item_value);
                assert(self@.cfg.take(k + 1).drop_last() =~= self@.cfg.take(k as int));
                assert(self@.cfg.take(k + 1).last() == self@.cfg[k as int]);
                assert(r.deep_view() =~= with_externs + pair_args("--cfg"@, self@.cfg.take(k + 1)));
            }
            k = k + 1;
        }
        proof {
            assert(self@.cfg.take(self.cfg.len() as int) =~= self@.cfg);
        }
        if self.test {
            let ghost snapshot = r;
            let flag = String::from_str("--test");
            let ghost flag_value = flag;
            r.push(flag);
            proof {
                lemma_deep_view_push(snapshot, r, flag_value);
            }
        }
        proof {
            assert(r.deep_view() =~= self@.args_spec(source@));
        }
        r
    }
}

} // verus!

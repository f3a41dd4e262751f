//! Documentation-test invocations: a narrow sibling of the compiler
//! invocation that renders the argument list for the documentation-test
//! tool run against a library source file.

use crate::rustc::{edition_text, Edition};
use vstd::prelude::*;

verus! {

/// The model of a documentation-test invocation.
#[verifier::ext_equal]
pub struct RustDocView {
    pub edition: Edition,
    pub crate_name: Seq<char>,
    pub lib_path: Seq<char>,
}

/// The rendered argument list of a documentation-test run on `source`:
/// test mode, the source path, then the package-name, edition and
/// search-path flags, each with its value.
pub open spec fn rustdoc_args_spec(d: RustDocView, source: Seq<char>) -> Seq<Seq<char>> {
    seq![
        "--test"@,
        source,
        "--crate-name"@,
        d.crate_name,
        "--edition"@,
        edition_text(d.edition),
        "-L"@,
        d.lib_path,
    ]
}

/// A documentation-test invocation: edition, package name and the single
/// search-path directory that holds the already-built library artifact.
#[derive(Debug)]
pub struct RustDoc {
    pub edition: Edition,
    pub crate_name: String,
    pub lib_path: String,
}

impl View for RustDoc {
    type V = RustDocView;

    open spec fn view(&self) -> RustDocView {
        RustDocView {
            edition: self.edition,
            crate_name: self.crate_name@,
            lib_path: self.lib_path@,
        }
    }
}

impl RustDoc {
    /// A documentation-test invocation over the given edition, package name
    /// and built-library directory.
    pub fn new(edition: Edition, crate_name: String, lib_path: String) -> (r: Self)
        ensures
            r@ == (RustDocView { edition, crate_name: crate_name@, lib_path: lib_path@ }),
    {
        RustDoc { edition, crate_name, lib_path }
    }

    /// Renders the documentation-test run against the given source path as
    /// its ordered argument list.
    pub fn test(&self, path: &str) -> (r: Vec<String>)
        ensures
            r.deep_view() == rustdoc_args_spec(self@, path@),
    {
        let mut r: Vec<String> = Vec::new();
        r.push(String::from_str("--test"));
        r.push(String::from_str(path));
        r.push(String::from_str("--crate-name"));
        r.push(self.crate_name.clone());
        r.push(String::from_str("--edition"));
        r.push(String::from_str(self.edition.text()));
        r.push(String::from_str("-L"));
        r.push(self.lib_path.clone());
        proof {
            assert(r.deep_view() =~= rustdoc_args_spec(self@, path@));
        }
        r
    }
}

} // verus!

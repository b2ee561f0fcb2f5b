//! The files that a new fuzz project starts with.

use vstd::prelude::*;
use vstd::string::*;
use crate::text::{crate_ident, spec_crate_ident};

verus! {

/// The manifest of the fuzz package of the package `name`: a package of its
/// own beside it, marked as a fuzz package, that depends on it by its path.
pub open spec fn spec_manifest_text(name: Seq<char>) -> Seq<char> {
    "\n[package]\nname = \""@ + name
        + "-fuzz\"\nversion = \"0.0.1\"\nauthors = [\"Automatically generated\"]\npublish = false\n\n[package.metadata]\ncargo-fuzz = true\n\n[dependencies."@
        + name
        + "]\npath = \"..\"\n[dependencies.libfuzzer-sys]\ngit = \"https://github.com/rust-fuzz/libfuzzer-sys.git\"\n\n# Prevent this from interfering with workspaces\n[workspace]\nmembers = [\".\"]\n"@
}

/// The manifest of the fuzz package of the package `name`.
pub fn manifest_text(name: &str) -> (r: String)
    ensures
        r@ == spec_manifest_text(name@),
{
    let mut text = String::from_str("\n[package]\nname = \"");
    text.append(name);
    text.append(
        "-fuzz\"\nversion = \"0.0.1\"\nauthors = [\"Automatically generated\"]\npublish = false\n\n[package.metadata]\ncargo-fuzz = true\n\n[dependencies.",
    );
    text.append(name);
    text.append(
        "]\npath = \"..\"\n[dependencies.libfuzzer-sys]\ngit = \"https://github.com/rust-fuzz/libfuzzer-sys.git\"\n\n# Prevent this from interfering with workspaces\n[workspace]\nmembers = [\".\"]\n",
    );
    assert(text@ =~= spec_manifest_text(name@));
    text
}

/// What is added to the manifest of the fuzz package for the target
/// `target`: a binary of that name, built from the script of that name.
pub open spec fn spec_bin_text(target: Seq<char>) -> Seq<char> {
    "\n[[bin]]\nname = \""@ + target + "\"\npath = \"fuzzers/"@ + target + ".rs\"\n"@
}

/// What is added to the manifest of the fuzz package for the target
/// `target`.
pub fn bin_text(target: &str) -> (r: String)
    ensures
        r@ == spec_bin_text(target@),
{
    let mut text = String::from_str("\n[[bin]]\nname = \"");
    text.append(target);
    text.append("\"\npath = \"fuzzers/");
    text.append(target);
    text.append(".rs\"\n");
    assert(text@ =~= spec_bin_text(target@));
    text
}

/// What version control is to leave alone in a fuzz package: what is built
/// and what the fuzzer gathers.
pub fn gitignore_text() -> (r: String)
    ensures
        r@ == "\ntarget\ncorpus\nartifacts\n"@,
{
    String::from_str("\ntarget\ncorpus\nartifacts\n")
}

/// The script of a new fuzz target for the package `name`: it names the
/// crate of the package, with underscores for hyphens, and leaves the body
/// to the user.
pub open spec fn spec_target_text(name: Seq<char>) -> Seq<char> {
    "#![no_main]\n#[macro_use] extern crate libfuzzer_sys;\nextern crate "@ + spec_crate_ident(name)
        + ";\n\nfuzz_target!(|data: &[u8]| {\n    // fuzzed code goes here\n});\n"@
}

/// The script of a new fuzz target for the package `name`.
pub fn target_text(name: &str) -> (r: String)
    ensures
        r@ == spec_target_text(name@),
{
    let mut text = String::from_str(
        "#![no_main]\n#[macro_use] extern crate libfuzzer_sys;\nextern crate ",
    );
    text.append(crate_ident(name).as_str());
    text.append(";\n\nfuzz_target!(|data: &[u8]| {\n    // fuzzed code goes here\n});\n");
    assert(text@ =~= spec_target_text(name@));
    text
}

} // verus!

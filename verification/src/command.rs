//! The command lines that build a fuzz target and run it.

use vstd::prelude::*;
use vstd::string::*;
use crate::process::ProcessSpec;
use crate::project::{artifacts_dir, corpus_dir, fuzz_dir, manifest_in, FuzzProject};
use crate::text::same_text;

verus! {

/// What the user asks for when a target is to be run.
#[derive(Clone, Debug, PartialEq, Eq)]
pub struct RunOptions {
    /// The name of the fuzz target.
    pub target: String,
    /// Whether to build with optimizations.
    pub release: bool,
    /// Whether to build with debug assertions.
    pub debug_assertions: bool,
    /// The name of the sanitizer to build with.
    pub sanitizer: String,
    /// The target triple to build for.
    pub triple: String,
    /// The corpus directories or input files given by the user, if any.
    pub corpus: Option<Vec<String>>,
    /// The arguments for the fuzzer given by the user, if any.
    pub args: Option<Vec<String>>,
}

/// What the environment of the caller holds under the names that the build
/// reads; the empty text stands for a name that is not set.
#[derive(Clone, Debug, PartialEq, Eq)]
pub struct Inherited {
    pub rustflags: String,
    pub asan_options: String,
    pub tsan_options: String,
}

/// Appends a text to a list of texts.
fn push_text(list: &mut Vec<String>, item: String)
    ensures
        final(list).deep_view() == old(list).deep_view().push(item@),
{
    list.push(item);
    assert(list.deep_view() =~= old(list).deep_view().push(item@));
}

/// Appends copies of `more`, in their order, to a list of texts.
fn push_texts(list: &mut Vec<String>, more: &Vec<String>)
    ensures
        final(list).deep_view() == old(list).deep_view() + more.deep_view(),
{
    let mut i: usize = 0;
    assert(list.deep_view() =~= old(list).deep_view() + more.deep_view().take(0));
    while i < more.len()
        invariant
            i <= more.len(),
            list.deep_view() == old(list).deep_view() + more.deep_view().take(i as int),
        decreases more.len() - i,
    {
        let ghost before = list.deep_view();
        push_text(list, more[i].clone());
        assert(before.push(more@[i as int]@) =~= old(list).deep_view() + more.deep_view().take(
            i + 1,
        ));
        i += 1;
    }
    assert(more.deep_view().take(more.len() as int) =~= more.deep_view());
}

/// The compiler flags of a fuzzing build: coverage instrumentation, the
/// sanitizer, abort on panic; then debug assertions where they are asked
/// for; then, after a space, the flags that the caller's environment holds,
/// where it holds any.
pub open spec fn spec_rustflags(
    sanitizer: Seq<char>,
    debug_assertions: bool,
    inherited: Seq<char>,
) -> Seq<char> {
    "-Cpasses=sancov -Cllvm-args=-sanitizer-coverage-level=4 -Cllvm-args=-sanitizer-coverage-trace-pc -Zsanitizer="@
        + sanitizer + " -Cpanic=abort"@ + (if debug_assertions {
        " -Cdebug-assertions"@
    } else {
        Seq::empty()
    }) + (if inherited.len() > 0 {
        " "@ + inherited
    } else {
        Seq::empty()
    })
}

/// The compiler flags of a fuzzing build.
pub fn rustflags(sanitizer: &str, debug_assertions: bool, inherited: &str) -> (r: String)
    ensures
        r@ == spec_rustflags(sanitizer@, debug_assertions, inherited@),
{
    let mut flags = String::from_str(
        "-Cpasses=sancov -Cllvm-args=-sanitizer-coverage-level=4 -Cllvm-args=-sanitizer-coverage-trace-pc -Zsanitizer=",
    );
    flags.append(sanitizer);
    flags.append(" -Cpanic=abort");
    if debug_assertions {
        flags.append(" -Cdebug-assertions");
    }
    if !inherited.is_empty() {
        flags.append(" ");
        flags.append(inherited);
    }
    assert(flags@ =~= spec_rustflags(sanitizer@, debug_assertions, inherited@));
    flags
}

/// Options of a sanitizer: those that the caller's environment holds, a
/// colon, and the option that a fuzzing run needs; the latter alone where
/// the environment holds none. What the user has set comes first, so the
/// user may still switch a check off.
pub open spec fn spec_merged_options(inherited: Seq<char>, needed: Seq<char>) -> Seq<char> {
    if inherited.len() > 0 {
        inherited + ":"@ + needed
    } else {
        needed
    }
}

/// Options of a sanitizer: the user's, then the one that a fuzzing run
/// needs.
pub fn merged_options(inherited: &str, needed: &str) -> (r: String)
    ensures
        r@ == spec_merged_options(inherited@, needed@),
{
    let mut options = String::from_str(inherited);
    if !inherited.is_empty() {
        options.append(":");
    }
    options.append(needed);
    assert(options@ =~= spec_merged_options(inherited@, needed@));
    options
}

/// The variable that carries the options of a sanitizer, with its value.
/// The address sanitizer and the thread sanitizer have one each; the others
/// have none.
pub open spec fn spec_sanitizer_options(sanitizer: Seq<char>, inherited: Inherited) -> Option<
    (Seq<char>, Seq<char>),
> {
    if sanitizer == "address"@ {
        Some(
            (
                "ASAN_OPTIONS"@,
                spec_merged_options(inherited.asan_options@, "detect_odr_violation=0"@),
            ),
        )
    } else if sanitizer == "thread"@ {
        Some(
            (
                "TSAN_OPTIONS"@,
                spec_merged_options(inherited.tsan_options@, "report_signal_unsafe=0"@),
            ),
        )
    } else {
        None
    }
}

/// The variable that carries the options of a sanitizer, with its value.
pub fn sanitizer_options(sanitizer: &str, inherited: &Inherited) -> (r: Option<(String, String)>)
    ensures
        r.deep_view() == spec_sanitizer_options(sanitizer@, *inherited),
{
    if same_text(sanitizer, "address") {
        Some(
            (
                String::from_str("ASAN_OPTIONS"),
                merged_options(inherited.asan_options.as_str(), "detect_odr_violation=0"),
            ),
        )
    } else if same_text(sanitizer, "thread") {
        Some(
            (
                String::from_str("TSAN_OPTIONS"),
                merged_options(inherited.tsan_options.as_str(), "report_signal_unsafe=0"),
            ),
        )
    } else {
        None
    }
}

/// The variables that both commands set: the compiler flags, and the
/// options of the sanitizer where it has any.
pub open spec fn spec_envs(options: RunOptions, inherited: Inherited) -> Seq<
    (Seq<char>, Seq<char>),
> {
    let flags = (
        "RUSTFLAGS"@,
        spec_rustflags(options.sanitizer@, options.debug_assertions, inherited.rustflags@),
    );
    match spec_sanitizer_options(options.sanitizer@, inherited) {
        Some(pair) => seq![flags, pair],
        None => seq![flags],
    }
}

/// The variables that both commands set.
pub fn envs(options: &RunOptions, inherited: &Inherited) -> (r: Vec<(String, String)>)
    ensures
        r.deep_view() == spec_envs(*options, *inherited),
{
    let mut list: Vec<(String, String)> = Vec::new();
    list.push(
        (
            String::from_str("RUSTFLAGS"),
            rustflags(
                options.sanitizer.as_str(),
                options.debug_assertions,
                inherited.rustflags.as_str(),
            ),
        ),
    );
    match sanitizer_options(options.sanitizer.as_str(), inherited) {
        Some(pair) => {
            list.push(pair);
        },
        None => {},
    }
    assert(list.deep_view() =~= spec_envs(*options, *inherited));
    list
}

/// The arguments that both commands give to cargo after its subcommand:
/// the manifest of the fuzz package, the release switch where it is asked
/// for, and the binary and the triple to build for.
pub open spec fn spec_cargo_args(root: Seq<char>, options: RunOptions) -> Seq<Seq<char>> {
    seq!["--manifest-path"@, manifest_in(fuzz_dir(root))] + (if options.release {
        seq!["--release"@]
    } else {
        Seq::empty()
    }) + seq!["--verbose"@, "--bin"@, options.target@, "--target"@, options.triple@]
}

/// Appends to `args` the arguments that both commands give to cargo after
/// its subcommand.
fn push_cargo_args(args: &mut Vec<String>, project: &FuzzProject, options: &RunOptions)
    ensures
        final(args).deep_view() == old(args).deep_view() + spec_cargo_args(project@.root, *options),
{
    push_text(args, String::from_str("--manifest-path"));
    push_text(args, project.manifest_path());
    if options.release {
        push_text(args, String::from_str("--release"));
    }
    push_text(args, String::from_str("--verbose"));
    push_text(args, String::from_str("--bin"));
    push_text(args, options.target.clone());
    push_text(args, String::from_str("--target"));
    push_text(args, options.triple.clone());
    assert(args.deep_view() =~= old(args).deep_view() + spec_cargo_args(project@.root, *options));
}

/// The arguments of the command that builds a target.
pub open spec fn spec_build_args(root: Seq<char>, options: RunOptions) -> Seq<Seq<char>> {
    seq!["build"@] + spec_cargo_args(root, options)
}

/// The command that builds a target: `cargo build` with the arguments and
/// variables of a fuzzing build, in the directory of the caller.
pub fn build_command(project: &FuzzProject, options: &RunOptions, inherited: &Inherited) -> (r:
    ProcessSpec)
    ensures
        r.program@ == "cargo"@,
        r.args.deep_view() == spec_build_args(project@.root, *options),
        r.envs.deep_view() == spec_envs(*options, *inherited),
        r.working_dir is None,
{
    let mut args: Vec<String> = Vec::new();
    assert(args.deep_view() =~= Seq::<Seq<char>>::empty());
    push_text(&mut args, String::from_str("build"));
    push_cargo_args(&mut args, project, options);
    assert(args.deep_view() =~= spec_build_args(project@.root, *options));
    ProcessSpec {
        program: String::from_str("cargo"),
        args,
        envs: envs(options, inherited),
        working_dir: None,
    }
}

/// The inputs that the fuzzer starts from: those that the user names, or
/// the corpus directory of the target where the user names none.
pub open spec fn spec_inputs(root: Seq<char>, options: RunOptions) -> Seq<Seq<char>> {
    match options.corpus {
        Some(given) => given.deep_view(),
        None => seq![corpus_dir(root, options.target@)],
    }
}

/// The arguments of the command that runs a target: those of the build,
/// and, behind `--`, what the fuzzer itself is given: where to put the
/// inputs that fail, the arguments of the user, and the inputs to start
/// from.
pub open spec fn spec_run_args(root: Seq<char>, options: RunOptions) -> Seq<Seq<char>> {
    seq!["run"@] + spec_cargo_args(root, options) + seq![
        "--"@,
        "-artifact_prefix="@ + artifacts_dir(root, options.target@),
    ] + (match options.args {
        Some(given) => given.deep_view(),
        None => Seq::empty(),
    }) + spec_inputs(root, options)
}

/// Whether the run reads the corpus directory of the target itself, so
/// that the directory has to be there: it does where the user names no
/// inputs.
pub fn uses_own_corpus(options: &RunOptions) -> (r: bool)
    ensures
        r == (options.corpus is None),
{
    options.corpus.is_none()
}

/// The command that runs a target: `cargo run` with the arguments and
/// variables of a fuzzing build and the arguments of the fuzzer, in the
/// directory of the caller. Every worker is started from it.
pub fn run_command(project: &FuzzProject, options: &RunOptions, inherited: &Inherited) -> (r:
    ProcessSpec)
    ensures
        r.program@ == "cargo"@,
        r.args.deep_view() == spec_run_args(project@.root, *options),
        r.envs.deep_view() == spec_envs(*options, *inherited),
        r.working_dir is None,
{
    let mut args: Vec<String> = Vec::new();
    assert(args.deep_view() =~= Seq::<Seq<char>>::empty());
    push_text(&mut args, String::from_str("run"));
    push_cargo_args(&mut args, project, options);
    push_text(&mut args, String::from_str("--"));
    let mut prefix = String::from_str("-artifact_prefix=");
    prefix.append(project.artifacts_for(options.target.as_str()).as_str());
    push_text(&mut args, prefix);
    match &options.args {
        Some(given) => {
            push_texts(&mut args, given);
        },
        None => {},
    }
    match &options.corpus {
        Some(given) => {
            push_texts(&mut args, given);
        },
        None => {
            push_text(&mut args, project.corpus_for(options.target.as_str()));
        },
    }
    assert(args.deep_view() =~= spec_run_args(project@.root, *options));
    ProcessSpec {
        program: String::from_str("cargo"),
        args,
        envs: envs(options, inherited),
        working_dir: None,
    }
}

} // verus!

use cargo_fuzz::command::{
    build_command, envs, merged_options, run_command, rustflags, sanitizer_options,
    uses_own_corpus, Inherited, RunOptions,
};
use cargo_fuzz::project::FuzzProject;

fn options() -> RunOptions {
    RunOptions {
        target: String::from("first"),
        release: false,
        debug_assertions: false,
        sanitizer: String::from("address"),
        triple: String::from("x86_64-unknown-linux-gnu"),
        corpus: None,
        args: None,
    }
}

fn nothing_inherited() -> Inherited {
    Inherited {
        rustflags: String::new(),
        asan_options: String::new(),
        tsan_options: String::new(),
    }
}

fn texts(items: &[&str]) -> Vec<String> {
    items.iter().map(|s| String::from(*s)).collect()
}

fn project() -> FuzzProject {
    FuzzProject::at(String::from("/work/pkg"))
}

const BASE_FLAGS: &str = "-Cpasses=sancov -Cllvm-args=-sanitizer-coverage-level=4 -Cllvm-args=-sanitizer-coverage-trace-pc -Zsanitizer=address -Cpanic=abort";

#[test]
fn the_flags_name_the_sanitizer() {
    assert_eq!(rustflags("address", false, ""), BASE_FLAGS);
    assert_eq!(
        rustflags("leak", false, ""),
        "-Cpasses=sancov -Cllvm-args=-sanitizer-coverage-level=4 -Cllvm-args=-sanitizer-coverage-trace-pc -Zsanitizer=leak -Cpanic=abort"
    );
}

#[test]
fn debug_assertions_and_inherited_flags_come_last() {
    assert_eq!(rustflags("address", true, ""), format!("{} -Cdebug-assertions", BASE_FLAGS));
    assert_eq!(rustflags("address", false, "-g"), format!("{} -g", BASE_FLAGS));
    assert_eq!(
        rustflags("address", true, "-g -Copt-level=1"),
        format!("{} -Cdebug-assertions -g -Copt-level=1", BASE_FLAGS)
    );
}

#[test]
fn the_options_of_the_user_come_first() {
    assert_eq!(merged_options("", "detect_odr_violation=0"), "detect_odr_violation=0");
    assert_eq!(
        merged_options("detect_leaks=0", "detect_odr_violation=0"),
        "detect_leaks=0:detect_odr_violation=0"
    );
    assert_eq!(merged_options("a:b", "c"), "a:b:c");
}

#[test]
fn two_sanitizers_have_options() {
    let inherited = Inherited {
        rustflags: String::new(),
        asan_options: String::from("detect_leaks=0"),
        tsan_options: String::from("halt_on_error=1"),
    };
    assert_eq!(
        sanitizer_options("address", &inherited),
        Some((String::from("ASAN_OPTIONS"), String::from("detect_leaks=0:detect_odr_violation=0")))
    );
    assert_eq!(
        sanitizer_options("thread", &inherited),
        Some((String::from("TSAN_OPTIONS"), String::from("halt_on_error=1:report_signal_unsafe=0")))
    );
    assert_eq!(sanitizer_options("leak", &inherited), None);
    assert_eq!(sanitizer_options("memory", &inherited), None);
    assert_eq!(sanitizer_options("", &inherited), None);
    assert_eq!(
        sanitizer_options("address", &nothing_inherited()),
        Some((String::from("ASAN_OPTIONS"), String::from("detect_odr_violation=0")))
    );
    assert_eq!(
        sanitizer_options("thread", &nothing_inherited()),
        Some((String::from("TSAN_OPTIONS"), String::from("report_signal_unsafe=0")))
    );
}

#[test]
fn the_variables_start_with_the_flags() {
    let list = envs(&options(), &nothing_inherited());
    assert_eq!(
        list,
        vec![
            (String::from("RUSTFLAGS"), String::from(BASE_FLAGS)),
            (String::from("ASAN_OPTIONS"), String::from("detect_odr_violation=0")),
        ]
    );
    let mut leak = options();
    leak.sanitizer = String::from("leak");
    leak.debug_assertions = true;
    let list = envs(&leak, &nothing_inherited());
    assert_eq!(
        list,
        vec![(
            String::from("RUSTFLAGS"),
            String::from("-Cpasses=sancov -Cllvm-args=-sanitizer-coverage-level=4 -Cllvm-args=-sanitizer-coverage-trace-pc -Zsanitizer=leak -Cpanic=abort -Cdebug-assertions")
        )]
    );
}

#[test]
fn the_build_command_is_cargo_build() {
    let command = build_command(&project(), &options(), &nothing_inherited());
    assert_eq!(command.program, "cargo");
    assert_eq!(
        command.args,
        texts(&[
            "build",
            "--manifest-path",
            "/work/pkg/fuzz/Cargo.toml",
            "--verbose",
            "--bin",
            "first",
            "--target",
            "x86_64-unknown-linux-gnu",
        ])
    );
    assert_eq!(command.envs, envs(&options(), &nothing_inherited()));
    assert_eq!(command.working_dir, None);
}

#[test]
fn a_release_build_says_so() {
    let mut release = options();
    release.release = true;
    let command = build_command(&project(), &release, &nothing_inherited());
    assert_eq!(
        command.args,
        texts(&[
            "build",
            "--manifest-path",
            "/work/pkg/fuzz/Cargo.toml",
            "--release",
            "--verbose",
            "--bin",
            "first",
            "--target",
            "x86_64-unknown-linux-gnu",
        ])
    );
}

#[test]
fn the_run_command_reads_the_corpus_of_the_target() {
    let command = run_command(&project(), &options(), &nothing_inherited());
    assert_eq!(command.program, "cargo");
    assert_eq!(
        command.args,
        texts(&[
            "run",
            "--manifest-path",
            "/work/pkg/fuzz/Cargo.toml",
            "--verbose",
            "--bin",
            "first",
            "--target",
            "x86_64-unknown-linux-gnu",
            "--",
            "-artifact_prefix=/work/pkg/fuzz/artifacts/first/",
            "/work/pkg/fuzz/corpus/first",
        ])
    );
    assert_eq!(command.envs, envs(&options(), &nothing_inherited()));
    assert_eq!(command.working_dir, None);
    assert!(uses_own_corpus(&options()));
}

#[test]
fn the_arguments_of_the_user_come_before_the_inputs() {
    let mut custom = options();
    custom.release = true;
    custom.sanitizer = String::from("thread");
    custom.args = Some(texts(&["-max_len=64", "-runs=100"]));
    custom.corpus = Some(texts(&["seeds", "more/seeds"]));
    let inherited = Inherited {
        rustflags: String::from("-g"),
        asan_options: String::from("unused=1"),
        tsan_options: String::from("halt_on_error=1"),
    };
    let command = run_command(&project(), &custom, &inherited);
    assert_eq!(
        command.args,
        texts(&[
            "run",
            "--manifest-path",
            "/work/pkg/fuzz/Cargo.toml",
            "--release",
            "--verbose",
            "--bin",
            "first",
            "--target",
            "x86_64-unknown-linux-gnu",
            "--",
            "-artifact_prefix=/work/pkg/fuzz/artifacts/first/",
            "-max_len=64",
            "-runs=100",
            "seeds",
            "more/seeds",
        ])
    );
    assert_eq!(
        command.envs,
        vec![
            (
                String::from("RUSTFLAGS"),
                String::from("-Cpasses=sancov -Cllvm-args=-sanitizer-coverage-level=4 -Cllvm-args=-sanitizer-coverage-trace-pc -Zsanitizer=thread -Cpanic=abort -g")
            ),
            (String::from("TSAN_OPTIONS"), String::from("halt_on_error=1:report_signal_unsafe=0")),
        ]
    );
    assert!(!uses_own_corpus(&custom));
}

#[test]
fn an_empty_list_of_inputs_is_not_the_corpus_of_the_target() {
    let mut custom = options();
    custom.corpus = Some(Vec::new());
    custom.args = Some(Vec::new());
    let command = run_command(&project(), &custom, &nothing_inherited());
    assert_eq!(command.args.last().unwrap(), "-artifact_prefix=/work/pkg/fuzz/artifacts/first/");
    assert!(!uses_own_corpus(&custom));
}

use noir_playground::channel::{parse_channel, Channel};
use noir_playground::command::{to_argv, Command};
use noir_playground::errors::AppError;
use noir_playground::options::Options;
use noir_playground::response::version_response;
use noir_playground::sandbox::{docker_run_argv, mount_arg};

fn opts(show_ssa: bool, deny_warnings: bool, silence_warnings: bool, print_acir: bool) -> Options {
    Options { show_ssa, deny_warnings, silence_warnings, print_acir }
}

#[test]
fn container_name_of_master() {
    assert_eq!(Channel::Master.container_name(), "noir-master");
}

#[test]
fn parse_channel_accepts_master() {
    assert!(matches!(parse_channel("master"), Some(Channel::Master)));
}

#[test]
fn parse_channel_rejects_unknown() {
    assert!(parse_channel("nonexistent").is_none());
    assert!(parse_channel("MASTER").is_none());
    assert!(parse_channel("").is_none());
}

#[test]
fn args_all_toggles_off_is_empty() {
    let a = Options::default().args();
    assert!(a.is_empty());
}

#[test]
fn args_single_toggles() {
    assert_eq!(opts(true, false, false, false).args(), vec!["--show-ssa"]);
    assert_eq!(opts(false, true, false, false).args(), vec!["--deny-warnings"]);
    assert_eq!(opts(false, false, true, false).args(), vec!["--silence-warnings"]);
    assert_eq!(opts(false, false, false, true).args(), vec!["--print-acir"]);
}

#[test]
fn args_subset_keeps_declaration_order() {
    assert_eq!(opts(true, false, false, true).args(), vec!["--show-ssa", "--print-acir"]);
    assert_eq!(opts(false, true, true, false).args(), vec!["--deny-warnings", "--silence-warnings"]);
}

#[test]
fn args_all_toggles_in_declaration_order() {
    assert_eq!(
        opts(true, true, true, true).args(),
        vec!["--show-ssa", "--deny-warnings", "--silence-warnings", "--print-acir"]
    );
}

#[test]
fn to_argv_compile_with_toggles() {
    let argv = to_argv(&Command::Compile, opts(true, false, false, true));
    assert_eq!(argv, vec!["compile", "--show-ssa", "--print-acir"]);
}

#[test]
fn to_argv_plain_commands() {
    let none = Options::default();
    assert_eq!(to_argv(&Command::Check, none), vec!["check"]);
    assert_eq!(to_argv(&Command::Compile, none), vec!["compile"]);
    assert_eq!(to_argv(&Command::Execute, none), vec!["execute"]);
}

#[test]
fn to_argv_fmt_bypasses_toggles() {
    let argv = to_argv(&Command::Fmt, opts(true, true, true, true));
    assert_eq!(argv, vec!["fmt"]);
}

#[test]
fn to_argv_version_is_flag_only() {
    let argv = to_argv(&Command::Version, opts(true, true, true, true));
    assert_eq!(argv, vec!["--version"]);
}

#[test]
fn to_argv_is_deterministic() {
    let a = to_argv(&Command::Execute, opts(false, true, false, true));
    let b = to_argv(&Command::Execute, opts(false, true, false, true));
    assert_eq!(a, b);
}

#[test]
fn mount_arg_joins_with_colon() {
    assert_eq!(mount_arg("/tmp/w/main.nr", "/playground/src/main.nr"), "/tmp/w/main.nr:/playground/src/main.nr");
}

#[test]
fn docker_argv_carries_isolation_flags_and_mounts() {
    let cmd = vec![String::from("check"), String::from("--deny-warnings")];
    let argv = docker_run_argv(&Channel::Master, "/tmp/w/main.nr", "/tmp/w/Prover.toml", &cmd);
    let expected = vec![
        "run",
        "--cap-drop=ALL",
        "-i",
        "--rm",
        "--platform",
        "linux/amd64",
        "--net",
        "none",
        "--memory",
        "512m",
        "--memory-swap",
        "640m",
        "--pids-limit",
        "512",
        "--oom-score-adj",
        "1000",
        "-a",
        "stdin",
        "-a",
        "stdout",
        "-a",
        "stderr",
        "--volume",
        "/tmp/w/main.nr:/playground/src/main.nr",
        "--volume",
        "/tmp/w/Prover.toml:/playground/Prover.toml",
        "noir-master",
        "nargo",
        "check",
        "--deny-warnings",
    ];
    assert_eq!(argv, expected);
}

#[test]
fn docker_argv_network_is_always_disabled() {
    let argv = docker_run_argv(&Channel::Master, "/a", "/b", &vec![]);
    let net = argv.iter().position(|t| t == "--net").unwrap();
    assert_eq!(argv[net + 1], "none");
    assert!(argv.iter().any(|t| t == "--cap-drop=ALL"));
    assert_eq!(argv.iter().filter(|t| *t == "--volume").count(), 2);
}

#[test]
fn error_messages_are_fixed() {
    assert_eq!(AppError::CreateFailed.message(), "failed to create temporary directory");
    assert_eq!(AppError::WriteSourceFailed.message(), "failed to write source code");
    assert_eq!(AppError::WriteProverFailed.message(), "failed to write Prover.toml");
    assert_eq!(AppError::ReadSourceFailed.message(), "failed to read source code");
    assert_eq!(AppError::StartFailed.message(), "failed to start docker container");
    assert_eq!(AppError::UnknownError.message(), "unknown error");
}

#[test]
fn version_succeeds_only_on_silent_stderr() {
    let ok = version_response(String::from("nargo 1.0.0"), &String::new());
    assert_eq!(ok.unwrap(), "nargo 1.0.0");
}

#[test]
fn version_with_stderr_is_an_error() {
    let r = version_response(String::from("nargo 1.0.0"), &String::from("warning: deprecated"));
    assert!(matches!(r, Err(AppError::UnknownError)));
}

#[test]
fn decode_output_keeps_valid_text() {
    assert_eq!(
        noir_playground::sandbox::decode_output(Vec::from("nargo 1.0".as_bytes())),
        "nargo 1.0"
    );
}

#[test]
fn decode_output_replaces_invalid_bytes_with_empty() {
    assert_eq!(noir_playground::sandbox::decode_output(vec![0xff, 0xfe, 0x00]), "");
}

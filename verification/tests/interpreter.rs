use lsh::builtins::{chdir_response, help_lines, lookup, lsh_exit, Builtin};
use lsh::dispatch::{dispatch, Directive};
use lsh::launcher::{launch_report, LaunchOutcome};
use lsh::numfmt::i32_string;
use lsh::repl::{read_step, should_continue, ReadEvent, ReadStep};

fn owned(parts: &[&str]) -> Vec<String> {
    parts.iter().map(|p| p.to_string()).collect()
}

#[test]
fn dispatch_empty_is_a_noop() {
    match dispatch(Vec::new()) {
        Directive::Respond(r) => {
            assert!(r.out_lines.is_empty());
            assert!(r.err_lines.is_empty());
            assert_eq!(r.status, 1);
        }
        _ => panic!("an empty token sequence must be handled silently"),
    }
}

#[test]
fn dispatch_cd_without_argument_reports_error() {
    match dispatch(owned(&["cd"])) {
        Directive::Respond(r) => {
            assert!(r.out_lines.is_empty());
            assert_eq!(r.err_lines, owned(&["lsh: expected argument to \"cd\""]));
            assert_eq!(r.status, 1);
        }
        _ => panic!("cd without an argument must not change directory"),
    }
}

#[test]
fn dispatch_cd_with_path_asks_for_the_change() {
    match dispatch(owned(&["cd", "/tmp"])) {
        Directive::ChangeDir(path) => assert_eq!(path, "/tmp"),
        _ => panic!("cd with an argument must ask for a directory change"),
    }
}

#[test]
fn chdir_failure_references_the_path() {
    let path = "/nonexistent-path".to_string();
    let error = Some("No such file or directory (os error 2)".to_string());
    let r = chdir_response(&path, &error);
    assert!(r.out_lines.is_empty());
    assert_eq!(
        r.err_lines,
        owned(&["lsh: /nonexistent-path: No such file or directory (os error 2)"]),
    );
    assert_eq!(r.status, 1);
}

#[test]
fn chdir_success_is_silent() {
    let r = chdir_response(&"/tmp".to_string(), &None);
    assert!(r.out_lines.is_empty());
    assert!(r.err_lines.is_empty());
    assert_eq!(r.status, 1);
}

#[test]
fn dispatch_exit_terminates_whatever_the_arguments() {
    for args in [owned(&["exit"]), owned(&["exit", "now"]), owned(&["exit", "1", "2", "3"])] {
        match dispatch(args) {
            Directive::Respond(r) => {
                assert!(r.out_lines.is_empty());
                assert!(r.err_lines.is_empty());
                assert_eq!(r.status, 0);
                assert!(!should_continue(r.status));
            }
            _ => panic!("exit must be handled by the built-in"),
        }
    }
}

#[test]
fn dispatch_help_prints_banner_and_builtin_names() {
    match dispatch(owned(&["help"])) {
        Directive::Respond(r) => {
            assert_eq!(
                r.out_lines,
                owned(&[
                    "Stephen Brennan's LSH",
                    "Type program names and arguments, and hit enter.",
                    "The following are built in:",
                    "cd",
                    "help",
                    "exit",
                    "Use the man command for information on other programs.",
                ]),
            );
            assert!(r.err_lines.is_empty());
            assert_eq!(r.status, 1);
        }
        _ => panic!("help must be handled by the built-in"),
    }
}

#[test]
fn help_lines_start_with_the_banner() {
    let lines = help_lines();
    assert_eq!(lines[0], "Stephen Brennan's LSH");
    assert_eq!(&lines[3..6], &owned(&["cd", "help", "exit"])[..]);
}

#[test]
fn dispatch_unknown_name_delegates_to_the_launcher() {
    let args = owned(&["definitely-not-a-real-binary-xyz", "--flag"]);
    match dispatch(args.clone()) {
        Directive::Launch(launched) => assert_eq!(launched, args),
        _ => panic!("an unknown name must be delegated to the launcher"),
    }
}

#[test]
fn lookup_is_exact_and_case_sensitive() {
    assert_eq!(lookup(&"cd".to_string()), Some(Builtin::Cd));
    assert_eq!(lookup(&"help".to_string()), Some(Builtin::Help));
    assert_eq!(lookup(&"exit".to_string()), Some(Builtin::Exit));
    assert_eq!(lookup(&"CD".to_string()), None);
    assert_eq!(lookup(&"e".to_string()), None);
    assert_eq!(lookup(&"exitt".to_string()), None);
    assert_eq!(lookup(&"".to_string()), None);
}

#[test]
fn exit_builtin_returns_zero() {
    assert_eq!(lsh_exit(Vec::new()), 0);
    assert_eq!(lsh_exit(owned(&["exit", "anything"])), 0);
}

#[test]
fn launch_success_is_announced() {
    let r = launch_report(&LaunchOutcome::Exited(0));
    assert_eq!(r.out_lines, owned(&["Shell common Command executed successfully"]));
    assert!(r.err_lines.is_empty());
    assert_eq!(r.status, 1);
}

#[test]
fn launch_nonzero_exit_code_is_reported_exactly() {
    let r = launch_report(&LaunchOutcome::Exited(42));
    assert!(r.out_lines.is_empty());
    assert_eq!(r.err_lines, owned(&["Command failed with exit code: 42"]));
    assert_eq!(r.status, 1);

    let r = launch_report(&LaunchOutcome::Exited(-1));
    assert_eq!(r.err_lines, owned(&["Command failed with exit code: -1"]));
    assert_eq!(r.status, 1);
}

#[test]
fn launch_spawn_failure_is_reported() {
    let r = launch_report(&LaunchOutcome::SpawnFailed(
        "No such file or directory (os error 2)".to_string(),
    ));
    assert!(r.out_lines.is_empty());
    assert_eq!(r.err_lines, owned(&["lsh: No such file or directory (os error 2)"]));
    assert_eq!(r.status, 1);
}

#[test]
fn i32_rendering_is_exact() {
    assert_eq!(i32_string(0), "0");
    assert_eq!(i32_string(7), "7");
    assert_eq!(i32_string(42), "42");
    assert_eq!(i32_string(100), "100");
    assert_eq!(i32_string(-1), "-1");
    assert_eq!(i32_string(2147483647), "2147483647");
    assert_eq!(i32_string(-2147483648), "-2147483648");
}

#[test]
fn end_of_input_stops_the_process_cleanly() {
    match read_step(ReadEvent::EndOfInput) {
        ReadStep::Terminate { code, err_line } => {
            assert_eq!(code, 0);
            assert!(err_line.is_none());
        }
        _ => panic!("end of input must terminate"),
    }
}

#[test]
fn read_failure_is_fatal_with_nonzero_code() {
    match read_step(ReadEvent::Failed("input unreadable".to_string())) {
        ReadStep::Terminate { code, err_line } => {
            assert_eq!(code, 1);
            assert_eq!(err_line, Some("lsh: getline input unreadable".to_string()));
        }
        _ => panic!("a read failure must terminate"),
    }
}

#[test]
fn a_read_line_proceeds() {
    match read_step(ReadEvent::Line("ls -l\n".to_string())) {
        ReadStep::Proceed(line) => assert_eq!(line, "ls -l\n"),
        _ => panic!("a read line must be interpreted"),
    }
}

#[test]
fn nonzero_status_continues_the_loop() {
    assert!(should_continue(1));
    assert!(should_continue(-1));
    assert!(!should_continue(0));
}

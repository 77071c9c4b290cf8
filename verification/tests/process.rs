use vaieart_services::env::EnvVars;
use vaieart_services::process::{
    command_failure_message, display_arg, ensure_command_can_start, ensure_program_available, program_has_path, program_lookup,
    run_commands, single_quote, unix_candidate_program_names, CommandRunner, ProcessCommand, ProgramLookup,
    WorkingDirectory,
};

#[test]
fn missing_bare_program_reports_path_error() {
    let error = ensure_program_available("__vaieart_missing_program__", false).expect_err("program should be missing");

    assert!(error.contains("was not found on PATH"));
}

#[test]
fn relative_program_checks_command_working_directory() {
    let command = ProcessCommand::new("./scripts/build").cwd("/tmp/work");

    match program_lookup(&command.program, &command.cwd, false) {
        ProgramLookup::AtPath(path) => assert_eq!(path, "/tmp/work/./scripts/build"),
        ProgramLookup::OnSearchPath(_) => panic!("relative program should resolve from cwd"),
    }
    ensure_command_can_start(&command, WorkingDirectory::IsDirectory, true).expect("relative program should resolve from cwd");
    let error = ensure_command_can_start(&command, WorkingDirectory::IsDirectory, false).expect_err("missing script");
    assert_eq!(error, "program `./scripts/build` does not exist relative to `/tmp/work`");
}

#[test]
fn missing_working_directory_reports_directory_error() {
    let command = ProcessCommand::new("__vaieart_missing_program__").cwd("/tmp/work/missing");
    let error = ensure_command_can_start(&command, WorkingDirectory::Missing, false)
        .expect_err("working directory should be missing");

    assert!(error.contains("working directory"));
    assert_eq!(
        error,
        "working directory `/tmp/work/missing` does not exist for `cd /tmp/work/missing && __vaieart_missing_program__`",
    );
}

#[test]
fn wsl_interop_candidates_include_exe_names() {
    assert_eq!(unix_candidate_program_names("deno", true), vec!["deno".to_string(), "deno.exe".to_string()]);
}

#[test]
fn explicit_extensions_do_not_add_exe_candidates() {
    assert_eq!(unix_candidate_program_names("deno.exe", true), vec!["deno.exe".to_string()]);
}

// ---------------------------------------------------------------------------
// Further cases
// ---------------------------------------------------------------------------

#[test]
fn display_quotes_only_what_needs_it() {
    assert_eq!(display_arg(""), "''");
    assert_eq!(display_arg("a-b_c.d/e:f\\g"), "a-b_c.d/e:f\\g");
    assert_eq!(display_arg("it's here"), "'it'\\''s here'");
    assert_eq!(single_quote("a b"), "'a b'");
    let mut env = EnvVars::new();
    env.insert("B".to_string(), "two words".to_string());
    env.insert("A".to_string(), "1".to_string());
    let command = ProcessCommand::new("deno").arg("task").arg("build").cwd("/srv/my app").envs(env);
    assert_eq!(command.display(), "cd '/srv/my app' && A=1 B='two words' deno task build");
}

#[test]
fn programs_with_paths_are_checked_where_they_are() {
    assert!(program_has_path("./build"));
    assert!(program_has_path("/usr/bin/git"));
    assert!(!program_has_path("git"));
    assert_eq!(ensure_program_available("/usr/bin/none", false).expect_err("missing"), "program `/usr/bin/none` does not exist");
    match program_lookup("/usr/bin/git", &Some("/tmp".to_string()), false) {
        ProgramLookup::AtPath(path) => assert_eq!(path, "/usr/bin/git"),
        ProgramLookup::OnSearchPath(_) => panic!("absolute program"),
    }
    match program_lookup("deno", &None, false) {
        ProgramLookup::OnSearchPath(names) => assert_eq!(names, vec!["deno".to_string()]),
        ProgramLookup::AtPath(_) => panic!("bare program"),
    }
}

#[test]
fn not_a_directory_is_reported() {
    let command = ProcessCommand::new("deno").cwd("/tmp/file");
    let error = ensure_command_can_start(&command, WorkingDirectory::NotADirectory, true).expect_err("file");
    assert_eq!(error, "working directory `/tmp/file` is not a directory for `cd /tmp/file && deno`");
}

struct FailSecond {
    seen: std::cell::RefCell<usize>,
}

impl CommandRunner for FailSecond {
    fn run(&self, command: &ProcessCommand) -> Result<(), String> {
        *self.seen.borrow_mut() += 1;
        if *self.seen.borrow() == 2 {
            Err(format!("command failed: `{}`", command.display()))
        } else {
            Ok(())
        }
    }
}

#[test]
fn commands_stop_at_the_first_failure() {
    let runner = FailSecond { seen: std::cell::RefCell::new(0) };
    let commands = vec![ProcessCommand::new("a"), ProcessCommand::new("b"), ProcessCommand::new("c")];
    assert_eq!(run_commands(&runner, &commands).expect_err("second fails"), "command failed: `b`");
    assert_eq!(*runner.seen.borrow(), 2);
    let error = runner.output(&ProcessCommand::new("x")).expect_err("no captured output");
    assert_eq!(error, "runner does not support captured output for `x`");
}

#[test]
fn failed_commands_report_status_and_trimmed_stderr() {
    let command = ProcessCommand::new("git").arg("status");
    assert_eq!(command_failure_message("exit status: 1", &command, ""), "command failed with exit status: 1: `git status`");
    assert_eq!(command_failure_message("exit status: 1", &command, "  \n"), "command failed with exit status: 1: `git status`");
    assert_eq!(
        command_failure_message("exit status: 128", &command, "fatal: not a repo\n"),
        "command failed with exit status: 128: `git status`: fatal: not a repo",
    );
}

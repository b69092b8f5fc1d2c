use rush::path::{render_path, resolve_dir};
use rush::session::{cd_failure_message, Action, Session};
use rush::tokenizer::ParseError;

fn strings(v: &[&str]) -> Vec<String> {
    v.iter().map(|s| s.to_string()).collect()
}

#[test]
fn new_session_normalises_its_start() {
    let s = Session::new("/home//user/./docs/..");
    assert_eq!(s.cwd, strings(&["home", "user"]));
    assert_eq!(s.cwd_path(), "/home/user");
    assert_eq!(Session::new("/").cwd_path(), "/");
}

#[test]
fn resolving_relative_and_absolute_directories() {
    let cwd = strings(&["home", "user"]);
    assert_eq!(resolve_dir(&cwd, "src/lib"), strings(&["home", "user", "src", "lib"]));
    assert_eq!(resolve_dir(&cwd, "../other/"), strings(&["home", "other"]));
    assert_eq!(resolve_dir(&cwd, "/tmp"), strings(&["tmp"]));
    assert_eq!(resolve_dir(&cwd, "../../../.."), Vec::<String>::new());
    assert_eq!(render_path(&strings(&["a", "b c"])), "/a/b c");
}

#[test]
fn exit_line_stops_the_loop() {
    let s = Session::new("/");
    assert!(matches!(s.handle_line("exit\n"), Action::Exit));
    assert!(matches!(s.handle_line("exit"), Action::Exit));
}

#[test]
fn blank_lines_are_skipped() {
    let s = Session::new("/");
    assert!(matches!(s.handle_line(""), Action::Skip));
    assert!(matches!(s.handle_line("\n"), Action::Skip));
    assert!(matches!(s.handle_line(" \t \n"), Action::Skip));
    assert!(matches!(s.handle_line("'' \"\"\n"), Action::Skip));
}

#[test]
fn too_long_line_is_rejected() {
    let s = Session::new("/");
    let line = "x".repeat(1001);
    match s.handle_line(&line) {
        Action::Rejected { error } => assert_eq!(error, ParseError::CommandTooLong),
        other => panic!("unexpected {:?}", other),
    }
}

#[test]
fn external_command_runs_in_working_directory() {
    let s = Session::new("/home/user");
    match s.handle_line("ls -l 'foo bar'\n") {
        Action::Run { program, args, dir } => {
            assert_eq!(program, "ls");
            assert_eq!(args, strings(&["-l", "foo bar"]));
            assert_eq!(dir, "/home/user");
        }
        other => panic!("unexpected {:?}", other),
    }
}

#[test]
fn cd_to_parent_changes_working_directory() {
    let mut s = Session::new("/home/user");
    let target = match s.handle_line("cd ..\n") {
        Action::ChangeDir { target } => target,
        other => panic!("unexpected {:?}", other),
    };
    assert_eq!(target, "/home");
    assert_eq!(s.cd_finished(&target, true), None);
    assert_eq!(s.cwd_path(), "/home");
    match s.handle_line("cat notes.txt\n") {
        Action::Run { program, args, dir } => {
            assert_eq!(program, "cat");
            assert_eq!(args, strings(&["notes.txt"]));
            assert_eq!(dir, "/home");
        }
        other => panic!("unexpected {:?}", other),
    }
}

#[test]
fn failed_cd_keeps_working_directory_and_reports() {
    let mut s = Session::new("/home/user");
    let target = match s.handle_line("cd /nonexistent\n") {
        Action::ChangeDir { target } => target,
        other => panic!("unexpected {:?}", other),
    };
    assert_eq!(target, "/nonexistent");
    assert_eq!(s.cd_finished(&target, false), Some("error: cd failed\n".to_string()));
    assert_eq!(s.cwd_path(), "/home/user");
}

#[test]
fn cd_with_wrong_argument_count_fails() {
    let s = Session::new("/home");
    assert!(matches!(s.handle_line("cd\n"), Action::CdFailure));
    assert!(matches!(s.handle_line("cd a b\n"), Action::CdFailure));
    assert_eq!(cd_failure_message(), "error: cd failed\n");
}

#[test]
fn dispatch_of_parsed_tokens() {
    let s = Session::new("/srv");
    match s.dispatch(&strings(&["cd", "www"])) {
        Action::ChangeDir { target } => assert_eq!(target, "/srv/www"),
        other => panic!("unexpected {:?}", other),
    }
    match s.dispatch(&strings(&["echo"])) {
        Action::Run { program, args, dir } => {
            assert_eq!(program, "echo");
            assert!(args.is_empty());
            assert_eq!(dir, "/srv");
        }
        other => panic!("unexpected {:?}", other),
    }
}

use gitflow::cmd::{
    is_verbose, set_verbose, Cmd, CmdOutput, ExecError, ExitStatus, SecretValue, Session, Settings,
    Stream,
};

fn verbose() -> Settings {
    let mut settings = Settings::new();
    set_verbose(&mut settings, true);
    settings
}

fn close_both(session: &mut Session) {
    session.on_closed(Stream::Stdout);
    session.on_closed(Stream::Stderr);
}

#[test]
fn test_cmd_new_stores_args() {
    let cmd = Cmd::new("git", &["status", "-s"]);
    assert_eq!(cmd.name(), "git");
    assert_eq!(*cmd.args(), vec!["status", "-s"]);
}

#[test]
fn test_cmd_new_empty_args() {
    let cmd = Cmd::new("ls", &[]);
    assert_eq!(cmd.name(), "ls");
    assert!(cmd.args().is_empty());
}

#[test]
fn test_build_command_description_default() {
    let cmd = Cmd::new("git", &["status"]);
    let desc = cmd.build_command_description();
    assert_eq!(desc, "🚀 git status");
}

#[test]
fn test_build_command_description_with_dir() {
    let mut cmd = Cmd::new("git", &["status"]);
    cmd.with_current_dir("/some/path");
    let desc = cmd.build_command_description();
    assert_eq!(desc, "🚀 git status 👉 /some/path");
}

#[test]
fn test_build_command_description_with_title() {
    let mut cmd = Cmd::new("git", &["status"]);
    cmd.with_title("Checking repo status");
    let desc = cmd.build_command_description();
    assert_eq!(desc, "Checking repo status");
}

#[test]
fn test_build_command_description_with_title_and_dir() {
    let mut cmd = Cmd::new("git", &["status"]);
    cmd.with_title("Checking status");
    cmd.with_current_dir("/repo");
    let desc = cmd.build_command_description();
    assert_eq!(desc, "Checking status 👉 /repo");
}

#[test]
fn test_cmd_output_stdout_trims() {
    let output = CmdOutput::new(
        ExitStatus::Exited { code: 0 },
        "  hello world  \n".to_string(),
        String::new(),
    );
    assert_eq!(output.stdout(), "hello world");
}

#[test]
fn description_joins_several_args_and_keeps_empty_args_space() {
    let cmd = Cmd::new("git", &["log", "--oneline", "-3"]);
    assert_eq!(cmd.build_command_description(), "🚀 git log --oneline -3");
    let bare = Cmd::new("ls", &[]);
    assert_eq!(bare.build_command_description(), "🚀 ls ");
}

#[test]
fn builders_chain() {
    let mut cmd = Cmd::new("gh", &["pr", "view"]);
    cmd.hide_stdout().hide_stderr().with_title("t").with_current_dir("/d");
    assert_eq!(cmd.current_dir(), Some("/d"));
    assert_eq!(cmd.build_command_description(), "t 👉 /d");
}

#[test]
fn env_names_stay_unique() {
    let mut cmd = Cmd::new("gh", &[]);
    cmd.with_env_var("TOKEN", SecretValue { secret: "a".into() });
    cmd.with_env_var("OTHER", SecretValue { secret: "b".into() });
    cmd.with_env_var("TOKEN", SecretValue { secret: "c".into() });
    let names: Vec<&str> = cmd.env_vars().iter().map(|(n, _)| n.as_str()).collect();
    assert_eq!(names, vec!["TOKEN", "OTHER"]);
    assert!(!cmd.build_command_description().contains("TOKEN"));
}

#[test]
fn verbosity_switch() {
    let mut settings = Settings::new();
    assert!(!is_verbose(&settings));
    set_verbose(&mut settings, true);
    assert!(is_verbose(&settings));
    set_verbose(&mut settings, false);
    assert!(!is_verbose(&settings));
}

#[test]
fn announcement_only_when_verbose() {
    let mut cmd = Cmd::new("git", &["status"]);
    cmd.with_current_dir("/r");
    assert_eq!(cmd.announcement(&Settings::new()), None);
    assert_eq!(cmd.announcement(&verbose()), Some("🚀 git status 👉 /r".to_string()));
}

#[test]
fn titled_announcement_is_the_title() {
    let mut cmd = Cmd::new("copilot", &["--prompt", "secret prompt"]);
    cmd.with_title("🚀 copilot --prompt ...");
    assert_eq!(cmd.announcement(&verbose()), Some("🚀 copilot --prompt ...".to_string()));
}

#[test]
fn exit_status_forms() {
    assert!(ExitStatus::Exited { code: 0 }.success());
    assert!(!ExitStatus::Exited { code: 1 }.success());
    assert!(!ExitStatus::Signaled { signal: 9 }.success());
    assert_eq!(ExitStatus::Exited { code: 4 }.code(), Some(4));
    assert_eq!(ExitStatus::Signaled { signal: 9 }.code(), None);
}

#[test]
fn scenario_echo_hello() {
    let cmd = Cmd::new("sh", &["-c", "echo hello"]);
    let mut session = Session::start(&cmd, &Settings::new());
    assert!(!session.on_line("hello", Stream::Stdout));
    close_both(&mut session);
    let out = session.finish(ExitStatus::Exited { code: 0 }).unwrap();
    assert!(out.status().success());
    assert_eq!(out.stdout(), "hello");
}

#[test]
fn scenario_interleaved_streams() {
    let cmd = Cmd::new("sh", &["-c", "printf 'a\\nb\\n' 1>&2; printf 'c\\nd\\n'"]);
    let mut session = Session::start(&cmd, &Settings::new());
    session.on_line("a", Stream::Stderr);
    session.on_line("c", Stream::Stdout);
    session.on_line("b", Stream::Stderr);
    session.on_line("d", Stream::Stdout);
    close_both(&mut session);
    let out = session.finish(ExitStatus::Exited { code: 0 }).unwrap();
    assert!(out.status().success());
    assert_eq!(out.stdout(), "c\nd");
    assert_eq!(out.stderr(), "a\nb");
}

#[test]
fn scenario_exit_code_three() {
    let cmd = Cmd::new("sh", &["-c", "exit 3"]);
    let mut session = Session::start(&cmd, &Settings::new());
    close_both(&mut session);
    let out = session.finish(ExitStatus::Exited { code: 3 }).unwrap();
    assert!(!out.status().success());
    assert_eq!(out.status().code(), Some(3));
    assert_eq!(out.stdout(), "");
}

#[test]
fn verbose_visible_lines_are_echoed_in_order() {
    let cmd = Cmd::new("sh", &[]);
    let mut session = Session::start(&cmd, &verbose());
    let mut echoed = Vec::new();
    for (line, stream) in [("1", Stream::Stdout), ("x", Stream::Stderr), ("2", Stream::Stdout)] {
        if session.on_line(line, stream) {
            echoed.push((line, stream));
        }
    }
    assert_eq!(echoed, vec![("1", Stream::Stdout), ("x", Stream::Stderr), ("2", Stream::Stdout)]);
    close_both(&mut session);
    let out = session.finish(ExitStatus::Exited { code: 0 }).unwrap();
    assert_eq!(out.stdout(), "1\n2");
    assert_eq!(out.stderr(), "x");
}

#[test]
fn hidden_stdout_is_kept_but_not_echoed() {
    let mut cmd = Cmd::new("sh", &[]);
    cmd.hide_stdout();
    let mut session = Session::start(&cmd, &verbose());
    assert!(!session.on_line("kept", Stream::Stdout));
    assert!(session.on_line("shown", Stream::Stderr));
    close_both(&mut session);
    let out = session.finish(ExitStatus::Exited { code: 0 }).unwrap();
    assert_eq!(out.stdout(), "kept");
}

#[test]
fn quiet_settings_echo_nothing() {
    let cmd = Cmd::new("sh", &[]);
    let mut session = Session::start(&cmd, &Settings::new());
    assert!(!session.on_line("a", Stream::Stdout));
    assert!(!session.on_line("b", Stream::Stderr));
}

#[test]
fn many_lines_on_one_stream_are_all_kept() {
    let cmd = Cmd::new("sh", &[]);
    let mut session = Session::start(&cmd, &Settings::new());
    for i in 0..20000 {
        session.on_line(&i.to_string(), Stream::Stdout);
    }
    assert!(!session.is_drained());
    close_both(&mut session);
    assert!(session.is_drained());
    let out = session.finish(ExitStatus::Exited { code: 0 }).unwrap();
    let lines: Vec<&str> = out.stdout().lines().collect();
    assert_eq!(lines.len(), 20000);
    assert_eq!(lines[0], "0");
    assert_eq!(lines[19999], "19999");
}

#[test]
fn decode_failure_is_reported() {
    let cmd = Cmd::new("sh", &[]);
    let mut session = Session::start(&cmd, &Settings::new());
    session.on_line("ok", Stream::Stdout);
    session.on_decode_failure(Stream::Stderr);
    session.on_decode_failure(Stream::Stdout);
    close_both(&mut session);
    match session.finish(ExitStatus::Exited { code: 0 }) {
        Err(ExecError::StreamDecodeFailed { stream }) => assert_eq!(stream, Stream::Stderr),
        other => panic!("unexpected {:?}", other),
    }
}

#[test]
fn successful_stdout_needs_success_and_text() {
    let ok = CmdOutput::new(ExitStatus::Exited { code: 0 }, " main\n".to_string(), String::new());
    assert_eq!(ok.successful_stdout(), Some("main"));
    let blank = CmdOutput::new(ExitStatus::Exited { code: 0 }, "\n".to_string(), String::new());
    assert_eq!(blank.successful_stdout(), None);
    let failed = CmdOutput::new(ExitStatus::Exited { code: 1 }, "main".to_string(), String::new());
    assert_eq!(failed.successful_stdout(), None);
}

use conmon::config::{Config, LogLevel};
use conmon::monitor::{Action, Feature, Outcome, RunError, Stage};
use conmon::Conmon;

fn sample(sync: bool, pidfile: Option<&str>) -> Config {
    Config {
        log_level: LogLevel::Debug,
        api_version: 1,
        bundle: None,
        cid: "abc".to_string(),
        conmon_pidfile: None,
        container_pidfile: None,
        cuuid: Some("0123456789abcdef".to_string()),
        exec_mode: false,
        exec_attach: false,
        exec_process_spec: None,
        exit_command: None,
        exit_command_arg: vec![],
        exit_delay: 0,
        exit_dir: None,
        leave_stdin_open: false,
        log_path: vec!["/tmp/log".to_string()],
        log_size_max: -1,
        log_tag: None,
        name: None,
        no_new_keyring: false,
        no_pivot: false,
        no_sync_log: false,
        persist_dir: None,
        pidfile: pidfile.map(|p| p.to_string()),
        replace_listen_pid: false,
        restore: None,
        restore_arg: vec![],
        runtime: "/usr/bin/runc".to_string(),
        runtime_arg: vec![],
        runtime_opt: vec![],
        sdnotify_socket: None,
        socket_dir_path: "/var/run/crio".to_string(),
        stdin: true,
        sync,
        syslog: false,
        systemd_cgroup: false,
        terminal: false,
        timeout: 0,
        full_attach: false,
        seccomp_notify_socket: None,
        seccomp_notify_plugins: None,
    }
}

fn run_to_fork(m: &mut Conmon) -> Vec<Action> {
    let mut seen = vec![];
    for _ in 0..5 {
        seen.push(m.next_action());
        m.advance(Outcome::Done);
    }
    seen
}

#[test]
fn daemonize_parent_writes_pidfile_and_exits() {
    let mut m = Conmon::new(sample(false, Some("/run/conmon.pid")));
    let early = run_to_fork(&mut m);
    assert_eq!(
        early,
        vec![
            Action::InitLogging,
            Action::CheckConfig,
            Action::AdjustOom,
            Action::ArmSignals,
            Action::AwaitStartPipe { close_after: true },
        ]
    );
    assert_eq!(m.next_action(), Action::Fork);
    m.advance(Outcome::ForkedParent(4242));
    assert_eq!(m.stage(), Stage::ParentForked(4242));
    assert_eq!(m.next_action(), Action::WritePidfile { child: 4242 });
    m.advance(Outcome::Done);
    assert_eq!(m.next_action(), Action::ExitSuccess);
    m.advance(Outcome::Done);
    assert_eq!(m.next_action(), Action::ExitSuccess);
}

#[test]
fn daemonize_parent_without_pidfile_exits() {
    let mut m = Conmon::new(sample(false, None));
    run_to_fork(&mut m);
    m.advance(Outcome::ForkedParent(7));
    assert_eq!(m.next_action(), Action::ExitSuccess);
}

#[test]
fn pidfile_failure_is_fatal_for_parent() {
    let mut m = Conmon::new(sample(false, Some("/p")));
    run_to_fork(&mut m);
    m.advance(Outcome::ForkedParent(7));
    m.advance(Outcome::Failed);
    assert_eq!(m.next_action(), Action::Abort(RunError::Pidfile));
}

#[test]
fn daemonize_child_runs_setup_in_order() {
    let mut m = Conmon::new(sample(false, Some("/p")));
    run_to_fork(&mut m);
    m.advance(Outcome::ForkedChild);
    assert_eq!(m.stage(), Stage::Detached);
    let mut seen = vec![];
    for _ in 0..4 {
        seen.push(m.next_action());
        m.advance(Outcome::Done);
    }
    assert_eq!(
        seen,
        vec![
            Action::SetSubreaper,
            Action::RedirectStdio,
            Action::CreateSession,
            Action::ProvisionIo { stdin: true, attach: false },
        ]
    );
    assert_eq!(m.stage(), Stage::Ready);
    assert_eq!(m.next_action(), Action::Finish);
}

#[test]
fn keep_as_child_skips_fork_and_pidfile() {
    let mut m = Conmon::new(sample(true, Some("/p")));
    run_to_fork(&mut m);
    let mut seen = vec![];
    while m.next_action() != Action::Finish {
        let a = m.next_action();
        assert!(!matches!(a, Action::Fork | Action::WritePidfile { .. } | Action::ExitSuccess));
        seen.push(a);
        m.advance(Outcome::Done);
    }
    assert_eq!(seen[0], Action::SetSubreaper);
    assert_eq!(m.stage(), Stage::Ready);
}

#[test]
fn oom_failure_is_not_fatal() {
    let mut m = Conmon::new(sample(true, None));
    m.advance(Outcome::Done);
    m.advance(Outcome::Done);
    assert_eq!(m.next_action(), Action::AdjustOom);
    m.advance(Outcome::Failed);
    assert_eq!(m.next_action(), Action::ArmSignals);
}

#[test]
fn fatal_failures_stop_the_sequence() {
    let mut m = Conmon::new(sample(true, None));
    m.advance(Outcome::Failed);
    assert_eq!(m.next_action(), Action::Abort(RunError::Logging));
    m.advance(Outcome::Done);
    assert_eq!(m.stage(), Stage::Failed(RunError::Logging));

    let mut m = Conmon::new(sample(true, None));
    run_to_fork(&mut m);
    m.advance(Outcome::Failed);
    assert_eq!(m.stage(), Stage::Failed(RunError::Subreaper));
}

#[test]
fn terminal_mode_is_not_implemented() {
    let mut c = sample(true, None);
    c.terminal = true;
    let mut m = Conmon::new(c);
    run_to_fork(&mut m);
    for _ in 0..3 {
        m.advance(Outcome::Done);
    }
    assert_eq!(m.next_action(), Action::Abort(RunError::NotImplemented(Feature::Terminal)));
}

#[test]
fn notify_socket_is_not_implemented() {
    let mut c = sample(true, None);
    c.sdnotify_socket = Some("/run/notify".to_string());
    let mut m = Conmon::new(c);
    run_to_fork(&mut m);
    m.advance(Outcome::Done);
    assert_eq!(m.next_action(), Action::Abort(RunError::NotImplemented(Feature::NotifySocket)));
}

#[test]
fn attach_session_keeps_start_pipe() {
    let mut c = sample(true, None);
    c.exec_mode = true;
    c.exec_attach = true;
    let mut m = Conmon::new(c);
    for _ in 0..4 {
        m.advance(Outcome::Done);
    }
    assert_eq!(m.next_action(), Action::AwaitStartPipe { close_after: false });
}

#[test]
fn validate_through_monitor() {
    let mut m = Conmon::new(sample(true, None));
    assert!(m.validate_config(true, Some("/w")).is_ok());
    assert_eq!(m.config().container_pidfile, Some("/w/pidfile-abc".to_string()));
    assert_eq!(m.config().bundle, Some("/w".to_string()));
    assert_eq!(m.stage(), Stage::Start);
}

use dsh_desktop::host::{
    HostConfig, HostEvent, HostState, HostSupervisor, NOT_CONFIGURED_ERROR, NOT_CONFIGURED_REASON,
};

fn config(entry: Option<&str>, args: &[&str]) -> HostConfig {
    HostConfig {
        node: "node".to_string(),
        entry: entry.map(str::to_string),
        args: args.iter().map(|a| a.to_string()).collect(),
        working_dir: "/home/u/.dsh/profiles/desktop".to_string(),
    }
}

#[test]
fn config_defaults_and_filters() {
    let c = HostConfig::from_values(None, None, None, "/p".into());
    assert_eq!(c.working_dir, "/p");
    assert_eq!(c.node, "node");
    assert_eq!(c.entry, None);
    assert!(c.args.is_empty());
    let c = HostConfig::from_values(Some("/opt/node".into()), Some(String::new()), Some("  --a b\t c\n".into()), "/p".into());
    assert_eq!(c.node, "/opt/node");
    assert_eq!(c.entry, None);
    assert_eq!(c.args, vec!["--a", "b", "c"]);
    let c = HostConfig::from_values(None, Some("/x/bin.js".into()), Some("   ".into()), "/p".into());
    assert_eq!(c.entry.as_deref(), Some("/x/bin.js"));
    assert!(c.args.is_empty());
}

#[test]
fn unconfigured_host_reports_why_and_refuses_to_spawn() {
    let mut s = HostSupervisor::new(config(None, &[]));
    assert_eq!(s.state(), HostState::NotConfigured { reason: NOT_CONFIGURED_REASON.to_string() });
    let plan = s.begin_spawn();
    assert!(!plan.stop_previous);
    assert_eq!(plan.launch.unwrap_err(), NOT_CONFIGURED_ERROR);
    assert_eq!(NOT_CONFIGURED_ERROR, "dsh Host 未配置");
    s.mark_started();
    assert!(!s.is_running());
    assert_eq!(s.state(), HostState::NotConfigured { reason: "环境变量 DSH_HOST_ENTRY 未设置".to_string() });
}

#[test]
fn spawn_start_events_and_stop() {
    let mut s = HostSupervisor::new(config(Some("/e/bin.js"), &["x", "y"]));
    assert_eq!(s.state(), HostState::Stopped);
    let plan = s.begin_spawn();
    assert!(!plan.stop_previous);
    let launch = plan.launch.unwrap();
    assert_eq!(launch.program, "node");
    assert_eq!(launch.args, vec!["/e/bin.js", "x", "y"]);
    assert_eq!(launch.current_dir, "/home/u/.dsh/profiles/desktop");
    s.mark_started();
    assert!(s.is_running());
    assert_eq!(s.state(), HostState::Starting);

    let ready = HostEvent::Ready { url: "http://127.0.0.1:1/".into(), injections: vec!["{\"a\":1}".into()] };
    s.apply(&ready);
    assert_eq!(
        s.state(),
        HostState::Ready { url: "http://127.0.0.1:1/".into(), injections: vec!["{\"a\":1}".into()] }
    );
    assert_eq!(s.state().ready_url().as_deref(), Some("http://127.0.0.1:1/"));
    s.apply(&HostEvent::Fatal { message: "boom".into() });
    assert_eq!(
        s.state(),
        HostState::Failed { message: "boom".into(), exit_code: None, port_in_use: false, diagnostics: String::new() }
    );
    assert_eq!(s.state().ready_url(), None);
    assert!(s.is_running());

    // A second spawn stops the running child first.
    let plan = s.begin_spawn();
    assert!(plan.stop_previous);
    assert_eq!(s.state(), HostState::Stopped);
    s.mark_started();
    assert!(s.stop());
    assert_eq!(s.state(), HostState::Stopped);
    assert!(!s.stop());
    assert_eq!(s.state(), HostState::Stopped);
}

#[test]
fn stop_without_a_child_changes_nothing() {
    let mut s = HostSupervisor::new(config(Some("/e"), &[]));
    s.apply(&HostEvent::Fatal { message: "m".into() });
    assert!(!s.stop());
    assert_eq!(
        s.state(),
        HostState::Failed { message: "m".into(), exit_code: None, port_in_use: false, diagnostics: String::new() }
    );
    s.apply(&HostEvent::ShutdownComplete);
    assert_eq!(s.state(), HostState::Stopped);
}

#[test]
fn spawn_error_names_the_program() {
    let s = HostSupervisor::new(HostConfig {
        node: "/usr/bin/node".into(),
        entry: Some("e".into()),
        args: vec![],
        working_dir: "/w".into(),
    });
    assert_eq!(s.spawn_error("No such file"), "无法启动 /usr/bin/node：No such file");
    assert_eq!(s.config().node, "/usr/bin/node");
}

#[test]
fn unicode_white_space_separates_arguments() {
    let c = HostConfig::from_values(None, None, Some("a\u{3000}b\u{a0}c\u{85}d".into()), "/p".into());
    assert_eq!(c.args, vec!["a", "b", "c", "d"]);
    let c = HostConfig::from_values(None, None, Some("a b".into()), "/p".into());
    assert_eq!(c.args, vec!["a", "b"]);
}

fn failed(message: &str, exit_code: Option<i32>, port_in_use: bool, diagnostics: &str) -> HostState {
    HostState::Failed {
        message: message.into(),
        exit_code,
        port_in_use,
        diagnostics: diagnostics.into(),
    }
}

#[test]
fn exit_after_fatal_keeps_the_message_and_takes_the_fuller_stderr() {
    let mut s = HostSupervisor::new(config(Some("/e"), &[]));
    s.begin_spawn();
    s.mark_started();
    s.apply(&HostEvent::Fatal { message: "listen EADDRINUSE: address already in use".into() });
    assert_eq!(s.state(), failed("listen EADDRINUSE: address already in use", None, true, ""));
    s.apply(&HostEvent::Exit { code: Some(1), stderr: "Error: listen EADDRINUSE\n    at Server.listen".into() });
    assert_eq!(
        s.state(),
        failed("listen EADDRINUSE: address already in use", Some(1), true, "Error: listen EADDRINUSE\n    at Server.listen")
    );
    assert!(s.is_running());
    assert!(s.stop());
}

#[test]
fn exit_classifies_a_port_in_use_from_stderr() {
    let mut s = HostSupervisor::new(config(Some("/e"), &[]));
    s.begin_spawn();
    s.mark_started();
    s.apply(&HostEvent::Fatal { message: "failed to start".into() });
    s.apply(&HostEvent::Exit { code: Some(1), stderr: "EADDRINUSE 127.0.0.1:19387".into() });
    assert_eq!(s.state(), failed("failed to start", Some(1), true, "EADDRINUSE 127.0.0.1:19387"));
}

#[test]
fn unexpected_exit_while_starting_or_ready_is_a_failure() {
    let mut s = HostSupervisor::new(config(Some("/e"), &[]));
    s.begin_spawn();
    s.mark_started();
    s.apply(&HostEvent::Exit { code: Some(137), stderr: "killed".into() });
    assert_eq!(s.state(), failed("Host 意外退出", Some(137), false, "killed"));

    let mut s = HostSupervisor::new(config(Some("/e"), &[]));
    s.begin_spawn();
    s.mark_started();
    s.apply(&HostEvent::Ready { url: "http://127.0.0.1:2/".into(), injections: vec![] });
    s.apply(&HostEvent::Exit { code: None, stderr: String::new() });
    assert_eq!(s.state(), failed("Host 意外退出", None, false, ""));
}

#[test]
fn exit_after_shutdown_leaves_the_host_stopped() {
    let mut s = HostSupervisor::new(config(Some("/e"), &[]));
    s.begin_spawn();
    s.mark_started();
    s.apply(&HostEvent::ShutdownComplete);
    s.apply(&HostEvent::Exit { code: Some(0), stderr: String::new() });
    assert_eq!(s.state(), HostState::Stopped);
}

#[test]
fn exit_without_configuration_changes_nothing() {
    let mut s = HostSupervisor::new(config(None, &[]));
    s.apply(&HostEvent::Exit { code: Some(0), stderr: String::new() });
    assert_eq!(s.state(), HostState::NotConfigured { reason: NOT_CONFIGURED_REASON.to_string() });
}

#[test]
fn a_failed_launch_never_leaves_the_host_starting() {
    let mut s = HostSupervisor::new(config(Some("/e"), &[]));
    let plan = s.begin_spawn();
    assert!(plan.launch.is_ok());
    // The application could not start the program: it reports the error and
    // never marks the child started.
    assert_eq!(s.spawn_error("not found"), "无法启动 node：not found");
    assert_eq!(s.state(), HostState::Stopped);
    assert!(!s.is_running());

    s.begin_spawn();
    s.mark_started();
    assert_eq!(s.state(), HostState::Starting);
    let plan = s.begin_spawn();
    assert!(plan.stop_previous);
    assert_eq!(s.state(), HostState::Stopped);
    assert!(!s.is_running());
}

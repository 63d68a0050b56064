use resip::config::Config;
use resip::process::{command_line_matches_state, TunnelProcessStatus};
use resip::state::State;
use resip::error::ResipError;
use resip::tunnel::control::{
    ssh_forward_step, stop_accepts_event, stop_step, supervised_forward_step,
    supervisor_keeps_running, ForwardWait, StartAction, StartEvent, StopAction, StopEvent,
    StopPhase, TunnelStart,
};
use resip::tunnel::{
    destination, forward_spec, running_state, server_label, ssh_args, ssh_command_string,
    state_details, tunnel_details,
};

#[test]
fn ssh_args_enable_client_keepalive() {
    let args = ssh_args(
        &Config::default(),
        "/Users/me/.ssh/id_rsa",
        "127.0.0.1:7891:127.0.0.1:7890",
        "ubuntu@example.com",
    );

    assert!(
        args.windows(2)
            .any(|pair| pair == ["-o", "ServerAliveInterval=30"])
    );
    assert!(
        args.windows(2)
            .any(|pair| pair == ["-o", "ServerAliveCountMax=3"])
    );
}

fn example_config() -> Config {
    Config {
        ssh_host: "203.0.113.10".to_string(),
        ssh_user: "admin".to_string(),
        ssh_port: 2222,
        ..Config::default()
    }
}

#[test]
fn forward_and_destination_follow_the_config() {
    let config = example_config();
    assert_eq!(forward_spec(&config), "127.0.0.1:7891:127.0.0.1:7890");
    assert_eq!(destination(&config), "admin@203.0.113.10");
    assert_eq!(server_label(&config), "admin@203.0.113.10:2222");
}

#[test]
fn ssh_command_string_lists_every_argument() {
    let config = example_config();
    assert_eq!(
        ssh_command_string(&config),
        "ssh -i ~/.ssh/id_ed25519 -p 2222 -o ExitOnForwardFailure=yes -o BatchMode=yes \
         -o ConnectTimeout=10 -o ServerAliveInterval=30 -o ServerAliveCountMax=3 -N \
         -L 127.0.0.1:7891:127.0.0.1:7890 admin@203.0.113.10"
    );
}

#[test]
fn recorded_state_recognises_its_own_ssh_process() {
    let config = example_config();
    let forward = forward_spec(&config);
    let dest = destination(&config);
    let args = ssh_args(&config, "/home/admin/.ssh/id_ed25519", &forward, &dest);
    let state = running_state(
        &config,
        4242,
        "2026-01-01T00:00:00Z".to_string(),
        forward,
        dest,
        Some(17),
    );
    let ps_line = format!("ssh ssh {}", args.join(" "));
    assert!(command_line_matches_state(&ps_line, &state));
    assert_eq!(state.server, "admin@203.0.113.10:2222");
    assert_eq!(state.supervisor_pid, Some(17));
}

#[test]
fn tunnel_details_describe_both_ends() {
    let config = example_config();
    assert_eq!(
        tunnel_details(&config, Some(7)),
        vec![
            "PID: 7".to_string(),
            "Local: 127.0.0.1:7891 on this machine".to_string(),
            "SSH: admin@203.0.113.10:2222".to_string(),
            "Remote target: 127.0.0.1:7890 on remote server".to_string(),
        ]
    );
    assert_eq!(tunnel_details(&config, None).len(), 3);
}

#[test]
fn state_details_name_both_processes() {
    let config = example_config();
    let state = running_state(&config, 99, String::new(), String::new(), String::new(), Some(5));
    assert_eq!(
        state_details(&state),
        vec!["Supervisor PID: 5".to_string(), "SSH PID: 99".to_string()]
    );
}

fn sample_state(supervisor_pid: Option<u32>, pid: u32) -> State {
    running_state(
        &example_config(),
        pid,
        "t".to_string(),
        "127.0.0.1:7891:127.0.0.1:7890".to_string(),
        "admin@203.0.113.10".to_string(),
        supervisor_pid,
    )
}

#[test]
fn supervisor_reconnects_until_state_is_gone() {
    let state = sample_state(Some(10), 20);
    assert!(supervisor_keeps_running(Some(&state), 10, 20));
    assert!(!supervisor_keeps_running(None, 10, 20));
    assert!(!supervisor_keeps_running(Some(&state), 11, 20));
    assert!(!supervisor_keeps_running(Some(&state), 10, 21));
}

#[test]
fn supervised_wait_steps() {
    let state = sample_state(Some(10), 20);
    assert!(matches!(
        supervised_forward_step(10, false, Some(&state), true),
        ForwardWait::Failed(resip::error::ResipError::SupervisorExitedImmediately)
    ));
    assert!(matches!(
        supervised_forward_step(10, true, Some(&state), true),
        ForwardWait::Ready
    ));
    assert!(matches!(
        supervised_forward_step(10, true, Some(&state), false),
        ForwardWait::Pending
    ));
    assert!(matches!(supervised_forward_step(11, true, Some(&state), true), ForwardWait::Pending));
    assert!(matches!(supervised_forward_step(10, true, None, false), ForwardWait::Pending));
}

#[test]
fn ssh_wait_steps() {
    assert!(matches!(
        ssh_forward_step(Some("exit status: 255".to_string()), false),
        ForwardWait::Failed(resip::error::ResipError::SshExitedImmediately { reason }) if reason == "exit status: 255"
    ));
    assert!(matches!(ssh_forward_step(None, false), ForwardWait::Ready));
    assert!(matches!(ssh_forward_step(None, true), ForwardWait::Pending));
}

fn drive(machine: TunnelStart, event: StartEvent) -> (TunnelStart, StartAction) {
    assert!(machine.accepts(&event));
    machine.step(event)
}

#[test]
fn start_without_existing_tunnel_spawns_supervisor() {
    let config = example_config();
    let m = TunnelStart::new(&config, false);
    let (m, a) = drive(m, StartEvent::Invoked);
    assert!(matches!(a, StartAction::LoadState));
    let (m, a) = drive(m, StartEvent::StateLoaded(None));
    assert!(matches!(a, StartAction::CheckSsh));
    let (m, a) = drive(m, StartEvent::SshFound(true));
    assert!(matches!(a, StartAction::CheckPort { ref host, port: 7891 } if host == "127.0.0.1"));
    let (m, a) = drive(m, StartEvent::PortAvailable(true));
    assert!(matches!(a, StartAction::SpawnSupervisor));
    let (m, a) = drive(m, StartEvent::SupervisorSpawned(77));
    assert!(matches!(a, StartAction::AwaitForward { supervisor_pid: 77 }));
    let (m, a) = drive(m, StartEvent::ForwardReady);
    assert!(matches!(a, StartAction::LoadStarted));
    let (_, a) = drive(m, StartEvent::StateLoaded(Some(sample_state(Some(77), 88))));
    assert!(matches!(a, StartAction::ReportStarted { supervisor_pid: 77, ref state } if state.pid == 88));
}

#[test]
fn start_fails_without_ssh_or_free_port() {
    let config = example_config();
    let (m, _) = drive(TunnelStart::new(&config, false), StartEvent::Invoked);
    let (m, _) = drive(m, StartEvent::StateLoaded(None));
    let (_, a) = drive(m, StartEvent::SshFound(false));
    assert!(matches!(a, StartAction::Fail(resip::error::ResipError::SshNotFound)));

    let (m, _) = drive(TunnelStart::new(&config, false), StartEvent::Invoked);
    let (m, _) = drive(m, StartEvent::StateLoaded(None));
    let (m, _) = drive(m, StartEvent::SshFound(true));
    let (_, a) = drive(m, StartEvent::PortAvailable(false));
    assert!(matches!(
        a,
        StartAction::Fail(resip::error::ResipError::PortInUse { ref host, port: 7891 }) if host == "127.0.0.1"
    ));
}

#[test]
fn start_asks_before_replacing_a_managed_tunnel() {
    let config = example_config();
    let (m, _) = drive(TunnelStart::new(&config, false), StartEvent::Invoked);
    let (m, a) = drive(m, StartEvent::StateLoaded(Some(sample_state(Some(1), 2))));
    let existing = match a {
        StartAction::Inspect(s) => s,
        _ => panic!("expected an inspection"),
    };
    let (m, a) = drive(
        m,
        StartEvent::Inspected { existing, supervisor_running: true, status: TunnelProcessStatus::NotRunning },
    );
    assert!(matches!(a, StartAction::AskRestart(_)));
    let (_, a) = drive(m, StartEvent::RestartAnswered(false));
    assert!(matches!(a, StartAction::KeepExisting));
}

#[test]
fn forced_start_replaces_and_stale_state_is_removed() {
    let config = example_config();
    let (m, _) = drive(TunnelStart::new(&config, true), StartEvent::Invoked);
    let (m, _) = drive(m, StartEvent::StateLoaded(Some(sample_state(None, 2))));
    let (m, a) = drive(
        m,
        StartEvent::Inspected {
            existing: sample_state(None, 2),
            supervisor_running: false,
            status: TunnelProcessStatus::Running,
        },
    );
    assert!(matches!(a, StartAction::StopExisting));
    let (_, a) = drive(m, StartEvent::Stopped);
    assert!(matches!(a, StartAction::CheckSsh));

    let (m, _) = drive(TunnelStart::new(&config, false), StartEvent::Invoked);
    let (m, _) = drive(m, StartEvent::StateLoaded(Some(sample_state(None, 2))));
    let (m, a) = drive(
        m,
        StartEvent::Inspected {
            existing: sample_state(None, 2),
            supervisor_running: false,
            status: TunnelProcessStatus::UnexpectedProcess,
        },
    );
    assert!(matches!(a, StartAction::RemoveStale(_)));
    let (_, a) = drive(m, StartEvent::StaleRemoved);
    assert!(matches!(a, StartAction::CheckSsh));
}

#[test]
fn start_machine_rejects_out_of_order_events() {
    let config = example_config();
    let m = TunnelStart::new(&config, false);
    assert!(!m.accepts(&StartEvent::ForwardReady));
    assert!(m.accepts(&StartEvent::Invoked));
}

#[test]
fn stop_kills_supervisor_then_tunnel_then_removes_state() {
    let (phase, action) = stop_step(StopPhase::Begin, StopEvent::Invoked);
    assert!(matches!(action, StopAction::LoadState));
    let event = StopEvent::Recorded { supervisor_pid: Some(10), ssh_pid: 20 };
    assert!(stop_accepts_event(&phase, &event));
    let (phase, action) = stop_step(phase, event);
    assert!(matches!(action, StopAction::CheckSupervisor(10)));
    let (phase, action) = stop_step(phase, StopEvent::SupervisorChecked(true));
    assert!(matches!(action, StopAction::KillSupervisor(10)));
    let (phase, action) = stop_step(phase, StopEvent::Killed(Ok(())));
    assert!(matches!(action, StopAction::CheckTunnel));
    let (phase, action) = stop_step(phase, StopEvent::TunnelChecked(TunnelProcessStatus::Running));
    assert!(matches!(action, StopAction::KillTunnel(20)));
    let (phase, action) = stop_step(phase, StopEvent::Killed(Ok(())));
    assert!(matches!(action, StopAction::RemoveState));
    let (phase, action) = stop_step(phase, StopEvent::StateRemoved);
    assert!(matches!(action, StopAction::Done));
    assert!(matches!(phase, StopPhase::Finished));
}

#[test]
fn stop_without_state_reports_not_running() {
    let (phase, _) = stop_step(StopPhase::Begin, StopEvent::Invoked);
    let (phase, action) = stop_step(phase, StopEvent::NothingRecorded);
    assert!(matches!(action, StopAction::ReportNotRunning));
    assert!(matches!(phase, StopPhase::Finished));
}

#[test]
fn stop_skips_dead_supervisor_and_removes_stale_state() {
    let (phase, _) = stop_step(StopPhase::Begin, StopEvent::Invoked);
    let (phase, _) = stop_step(phase, StopEvent::Recorded { supervisor_pid: Some(10), ssh_pid: 20 });
    let (phase, action) = stop_step(phase, StopEvent::SupervisorChecked(false));
    assert!(matches!(action, StopAction::CheckTunnel));
    let (_, action) = stop_step(
        phase,
        StopEvent::TunnelChecked(TunnelProcessStatus::UnexpectedProcess),
    );
    assert!(matches!(
        action,
        StopAction::RemoveStaleState { ssh_pid: 20, status: TunnelProcessStatus::UnexpectedProcess }
    ));
}

#[test]
fn stop_failure_keeps_state() {
    let (phase, _) = stop_step(StopPhase::Begin, StopEvent::Invoked);
    let (phase, action) = stop_step(phase, StopEvent::Recorded { supervisor_pid: None, ssh_pid: 20 });
    assert!(matches!(action, StopAction::CheckTunnel));
    let (phase, _) = stop_step(phase, StopEvent::TunnelChecked(TunnelProcessStatus::Running));
    let failure = ResipError::CommandFailed { program: "kill".to_string() };
    let (phase, action) = stop_step(phase, StopEvent::Killed(Err(failure.clone())));
    assert!(matches!(action, StopAction::Fail(ref e) if *e == failure));
    assert!(matches!(phase, StopPhase::Finished));
    assert!(!stop_accepts_event(&phase, &StopEvent::StateRemoved));
}

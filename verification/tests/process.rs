use resip::process::{
    command_line_matches_state, expected_ssh_process, server_host, state_process_status,
    TunnelProcessStatus,
};
use resip::state::State;

fn state() -> State {
    State {
        pid: 42,
        started_at: "2026-05-10T00:00:00Z".to_string(),
        local_tunnel_host: "127.0.0.1".to_string(),
        local_tunnel_port: 7891,
        server: "ubuntu@example.com:22".to_string(),
        forward: Some("127.0.0.1:7891:127.0.0.1:7890".to_string()),
        destination: Some("ubuntu@example.com".to_string()),
        supervisor_pid: None,
    }
}

fn legacy_state() -> State {
    State {
        forward: None,
        destination: None,
        ..state()
    }
}

#[test]
fn command_line_matches_expected_ssh_tunnel() {
    let command_line = "ssh -i /Users/me/.ssh/id_ed25519 -p 22 \
        -o ExitOnForwardFailure=yes -o BatchMode=yes -o ConnectTimeout=10 \
        -N -L 127.0.0.1:7891:127.0.0.1:7890 ubuntu@example.com";

    assert!(command_line_matches_state(command_line, &state()));
}

#[test]
fn command_line_rejects_reused_pid() {
    assert!(!command_line_matches_state(
        "/usr/bin/python server.py",
        &state()
    ));
}

#[test]
fn command_line_rejects_different_forward() {
    let command_line = "ssh -N -L 127.0.0.1:9999:127.0.0.1:7890 ubuntu@example.com";

    assert!(!command_line_matches_state(command_line, &state()));
}

#[test]
fn command_line_rejects_different_destination() {
    let command_line = "ssh -N -L 127.0.0.1:7891:127.0.0.1:7890 root@example.org";
    assert!(!command_line_matches_state(command_line, &state()));
}

#[test]
fn legacy_state_matches_on_port_and_host() {
    assert!(command_line_matches_state(
        "ssh -N -L 127.0.0.1:7891:127.0.0.1:7890 ubuntu@example.com",
        &legacy_state()
    ));
    assert!(!command_line_matches_state(
        "ssh -N -L 127.0.0.1:9999:127.0.0.1:7890 ubuntu@example.com",
        &legacy_state()
    ));
    assert!(!command_line_matches_state(
        "ssh -N -L 127.0.0.1:7891:127.0.0.1:7890 ubuntu@other.com",
        &legacy_state()
    ));
}

#[test]
fn server_host_drops_the_last_port() {
    assert_eq!(server_host("ubuntu@example.com:22"), "ubuntu@example.com");
    assert_eq!(server_host("a:b:c"), "a:b");
    assert_eq!(server_host("no-colon"), "no-colon");
    assert_eq!(server_host(":"), "");
}

#[test]
fn process_status_classifies_pids() {
    let s = state();
    assert_eq!(
        state_process_status(&s, false, Some("ssh -L 127.0.0.1:7891:127.0.0.1:7890 ubuntu@example.com")),
        TunnelProcessStatus::NotRunning
    );
    assert_eq!(
        state_process_status(&s, true, Some("ssh -L 127.0.0.1:7891:127.0.0.1:7890 ubuntu@example.com")),
        TunnelProcessStatus::Running
    );
    assert_eq!(
        state_process_status(&s, true, Some("/usr/bin/python server.py")),
        TunnelProcessStatus::UnexpectedProcess
    );
    assert_eq!(state_process_status(&s, true, None), TunnelProcessStatus::Running);
    assert!(expected_ssh_process(&s, None));
}

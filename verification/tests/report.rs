use resip::config::Config;
use resip::report::{ip_info_lines, status_lines};
use resip::state::State;

fn state() -> State {
    State {
        pid: 42,
        started_at: "2026-05-10T00:00:00Z".to_string(),
        local_tunnel_host: "127.0.0.1".to_string(),
        local_tunnel_port: 7891,
        server: "ubuntu@example.com:22".to_string(),
        forward: None,
        destination: None,
        supervisor_pid: None,
    }
}

#[test]
fn status_without_anything() {
    assert_eq!(
        status_lines("/c/config.json", "/d/state.json", None, None, false),
        vec![
            "Config: /c/config.json",
            "State: /d/state.json",
            "Tunnel: stopped",
            "SSH: not configured",
            "Clash config: not configured",
        ]
    );
}

#[test]
fn status_with_running_tunnel_and_config() {
    let config = Config {
        ssh_host: "example.com".to_string(),
        ..Config::default()
    };
    assert_eq!(
        status_lines("c", "s", Some(&config), Some(&state()), true),
        vec![
            "Config: c",
            "State: s",
            "Tunnel: running",
            "PID: 42",
            "Started at: 2026-05-10T00:00:00Z",
            "Local: 127.0.0.1:7891 on this machine",
            "SSH: ubuntu@example.com:22",
            "Remote target: 127.0.0.1:7890 on remote server",
            "Clash config: ~/Downloads/resip-resip-server.yaml",
        ]
    );
}

#[test]
fn status_with_stale_tunnel_and_no_config() {
    assert_eq!(
        status_lines("c", "s", None, Some(&state()), false),
        vec![
            "Config: c",
            "State: s",
            "Tunnel: stale",
            "PID: 42",
            "Started at: 2026-05-10T00:00:00Z",
            "Local: 127.0.0.1:7891 on this machine",
            "SSH: ubuntu@example.com:22",
            "Clash config: not configured",
        ]
    );
}

#[test]
fn ip_info_lines_fill_missing_fields() {
    let lines = ip_info_lines(vec![
        Some("203.0.113.10".to_string()),
        None,
        Some("Tokyo".to_string()),
        Some("JP".to_string()),
        None,
    ]);
    assert_eq!(
        lines,
        vec!["ip: 203.0.113.10", "city: -", "region: Tokyo", "country: JP", "org: -"]
    );
}

use resip::error::ResipError;
use resip::init::{InitAction, InitSession, InitStep};

#[test]
fn init_with_server_and_output_asks_only_ssh_settings() {
    let (session, action) = InitSession::start(
        Some("203.0.113.10".to_string()),
        Some("/tmp/resip/clash.yaml".to_string()),
    );
    assert_eq!(session.step, InitStep::User);
    assert!(matches!(
        action,
        InitAction::AskWithDefault { ref label, ref default } if label == "SSH user" && default == "ubuntu"
    ));
    let (session, action) = session.answer("\n");
    assert!(matches!(
        action,
        InitAction::AskWithDefault { ref label, ref default } if label == "SSH port" && default == "22"
    ));
    let (session, action) = session.answer("\n");
    assert_eq!(session.step, InitStep::Identity);
    let default = match action {
        InitAction::AskIdentity { default, .. } => default,
        other => panic!("unexpected action {other:?}"),
    };
    assert!(default.starts_with("~/.ssh/id_"));
    let (session, action) = session.answer("\n");
    assert!(matches!(action, InitAction::Done));
    let config = session.config;
    assert_eq!(config.ssh_host, "203.0.113.10");
    assert_eq!(config.ssh_user, "ubuntu");
    assert_eq!(config.ssh_port, 22);
    assert_eq!(config.identity_file, default);
    assert_eq!(config.clash_output_path, "/tmp/resip/clash.yaml");
    assert_eq!(config.name, "resip-server");
    assert_eq!(config.local_tunnel_port, 7891);
    assert_eq!(config.local_clash_port, 7890);
}

#[test]
fn init_asks_again_for_an_empty_server() {
    let (session, action) = InitSession::start(None, Some("out.yaml".to_string()));
    assert!(matches!(
        action,
        InitAction::AskRequired { ref label, again: false } if label == "Server IP"
    ));
    let (session, action) = session.answer("   \n");
    assert_eq!(session.step, InitStep::Server);
    assert!(matches!(action, InitAction::AskRequired { again: true, .. }));
    let (session, _) = session.answer(" example.com \n");
    assert_eq!(session.step, InitStep::User);
    assert_eq!(session.config.ssh_host, "example.com");
    let (session, _) = session.answer(" admin\n");
    assert_eq!(session.config.ssh_user, "admin");
    let (session, _) = session.answer("2222\n");
    assert_eq!(session.config.ssh_port, 2222);
}

#[test]
fn init_rejects_a_bad_port() {
    let (session, _) = InitSession::start(Some("h".to_string()), Some("o.yaml".to_string()));
    let (session, _) = session.answer("\n");
    let (session, action) = session.answer("70000\n");
    assert_eq!(session.step, InitStep::Finished);
    assert!(matches!(action, InitAction::Fail(ResipError::InvalidSshPort)));
}

#[test]
fn init_rejects_port_zero() {
    let (session, _) = InitSession::start(Some("h".to_string()), Some("o.yaml".to_string()));
    let (session, _) = session.answer("\n");
    let (session, action) = session.answer(" 0 \n");
    assert_eq!(session.step, InitStep::Finished);
    assert!(matches!(action, InitAction::Fail(ResipError::InvalidSshPort)));
}

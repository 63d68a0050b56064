use resip::clash::clash_config;
use resip::config::{parse_ssh_port, Config};
use resip::error::ResipError;
use resip::state::State;
use resip::support::prompt::{resolve_default, resolve_required, resolve_yes_no, yes_no_answer};
use resip::support::text::{contains, decimal_string, parse_u16, trim};

#[test]
fn default_config_matches_documented_defaults() {
    let c = Config::default();
    assert_eq!(c.name, "resip-server");
    assert_eq!(c.ssh_host, "");
    assert_eq!(c.ssh_user, "ubuntu");
    assert_eq!(c.ssh_port, 22);
    assert_eq!(c.identity_file, "~/.ssh/id_ed25519");
    assert_eq!(c.local_tunnel_host, "127.0.0.1");
    assert_eq!(c.local_tunnel_port, 7891);
    assert_eq!(c.remote_proxy_host, "127.0.0.1");
    assert_eq!(c.remote_proxy_port, 7890);
    assert_eq!(c.local_clash_port, 7890);
    assert_eq!(c.clash_output_path, "~/Downloads/resip-resip-server.yaml");
}

#[test]
fn ssh_port_parsing_follows_u16_rules() {
    assert_eq!(parse_ssh_port("22"), Ok(22));
    assert_eq!(parse_ssh_port("+2222"), Ok(2222));
    assert_eq!(parse_ssh_port("0065535"), Ok(65535));
    assert_eq!(parse_ssh_port("65536"), Err(ResipError::InvalidSshPort));
    assert_eq!(parse_ssh_port("-1"), Err(ResipError::InvalidSshPort));
    assert_eq!(parse_ssh_port(""), Err(ResipError::InvalidSshPort));
    assert_eq!(parse_ssh_port("+"), Err(ResipError::InvalidSshPort));
    assert_eq!(parse_ssh_port("22a"), Err(ResipError::InvalidSshPort));
    assert_eq!(parse_ssh_port("99999999999"), Err(ResipError::InvalidSshPort));
}

#[test]
fn ssh_port_zero_is_refused() {
    assert_eq!(parse_ssh_port("0"), Err(ResipError::InvalidSshPort));
    assert_eq!(parse_ssh_port("000"), Err(ResipError::InvalidSshPort));
    assert_eq!(parse_ssh_port("+0"), Err(ResipError::InvalidSshPort));
    assert_eq!(parse_ssh_port("1"), Ok(1));
}

#[test]
fn parse_u16_agrees_with_std_on_samples() {
    for text in ["0", "7", "+7", "65535", "65536", "", "+", "-0", " 1", "1 ", "00", "123456", "٣"] {
        assert_eq!(parse_u16(text), text.parse::<u16>().ok(), "{text:?}");
    }
}

#[test]
fn default_port_round_trips_through_its_text() {
    for port in [1u16, 9, 10, 22, 7890, 65535] {
        let text = decimal_string(port as u32);
        assert_eq!(text, port.to_string());
        assert_eq!(parse_ssh_port(&text), Ok(port));
    }
}

#[test]
fn prompt_answers_are_trimmed_and_defaulted() {
    assert_eq!(resolve_default("\n", "ubuntu"), "ubuntu");
    assert_eq!(resolve_default("  admin \n", "ubuntu"), "admin");
    assert_eq!(resolve_required(" \t\n"), None);
    assert_eq!(resolve_required(" 1.2.3.4\n"), Some("1.2.3.4".to_string()));
}

#[test]
fn yes_no_answers() {
    assert_eq!(resolve_yes_no("\n", false), Some(false));
    assert_eq!(resolve_yes_no("\n", true), Some(true));
    assert_eq!(resolve_yes_no(" YES \n", false), Some(true));
    assert_eq!(resolve_yes_no("y", false), Some(true));
    assert_eq!(resolve_yes_no("No", true), Some(false));
    assert_eq!(resolve_yes_no("maybe", true), None);
    assert_eq!(yes_no_answer("n", true), Some(false));
}

#[test]
fn trim_matches_std_on_samples() {
    for text in ["", "  a b  ", "\u{3000}x\u{85}", "\t\n\r", "abc", "\u{200b}z"] {
        assert_eq!(trim(text), text.trim(), "{text:?}");
    }
}

#[test]
fn contains_matches_std_on_samples() {
    for (hay, needle) in [("ssh -L a", "ssh"), ("", ""), ("abc", ""), ("ab", "abc"), ("aab", "ab"), ("xyz", "q")] {
        assert_eq!(contains(hay, needle), hay.contains(needle));
    }
}

#[test]
fn clash_config_routes_everything_through_the_tunnel() {
    let c = Config::default();
    let clash = clash_config(&c);
    assert_eq!(clash.port, 7890);
    assert!(!clash.allow_lan);
    assert_eq!(clash.mode, "Rule");
    assert_eq!(clash.proxies.len(), 1);
    assert_eq!(clash.proxies[0].name, "resip-server");
    assert_eq!(clash.proxies[0].proxy_type, "http");
    assert_eq!(clash.proxies[0].server, "127.0.0.1");
    assert_eq!(clash.proxies[0].port, 7891);
    assert_eq!(clash.proxy_groups.len(), 1);
    assert_eq!(clash.proxy_groups[0].name, "RESIP");
    assert_eq!(clash.proxy_groups[0].group_type, "select");
    assert_eq!(clash.proxy_groups[0].proxies, vec!["resip-server".to_string()]);
    assert_eq!(clash.rules, vec!["MATCH,RESIP".to_string()]);
}

#[test]
fn config_and_state_paths_name_their_files() {
    if let Ok(path) = Config::path() {
        assert!(path.ends_with("config.json"));
        assert!(path.len() > "config.json".len());
    }
    if let Ok(path) = State::path() {
        assert!(path.ends_with("state.json"));
        assert!(path.len() > "state.json".len());
    }
}

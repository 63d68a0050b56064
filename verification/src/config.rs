//! The persisted tunnel configuration.
use crate::error::ResipError;
use crate::support::dirs::{ends_with, is_plain_name, path_join, project_config_dir, project_dirs};
use crate::support::text::{decimal, parse_u16, parse_u16_spec};
use vstd::prelude::*;

verus! {

/// Connection settings for the SSH tunnel and the generated Clash file.
#[derive(Debug, Clone)]
pub struct Config {
    pub name: String,
    pub ssh_host: String,
    pub ssh_user: String,
    pub ssh_port: u16,
    pub identity_file: String,
    pub local_tunnel_host: String,
    pub local_tunnel_port: u16,
    pub remote_proxy_host: String,
    pub remote_proxy_port: u16,
    pub local_clash_port: u16,
    pub clash_output_path: String,
}

/// The mathematical model of a `Config`.
pub struct ConfigView {
    pub name: Seq<char>,
    pub ssh_host: Seq<char>,
    pub ssh_user: Seq<char>,
    pub ssh_port: u16,
    pub identity_file: Seq<char>,
    pub local_tunnel_host: Seq<char>,
    pub local_tunnel_port: u16,
    pub remote_proxy_host: Seq<char>,
    pub remote_proxy_port: u16,
    pub local_clash_port: u16,
    pub clash_output_path: Seq<char>,
}

impl View for Config {
    type V = ConfigView;

    open spec fn view(&self) -> ConfigView {
        ConfigView {
            name: self.name@,
            ssh_host: self.ssh_host@,
            ssh_user: self.ssh_user@,
            ssh_port: self.ssh_port,
            identity_file: self.identity_file@,
            local_tunnel_host: self.local_tunnel_host@,
            local_tunnel_port: self.local_tunnel_port,
            remote_proxy_host: self.remote_proxy_host@,
            remote_proxy_port: self.remote_proxy_port,
            local_clash_port: self.local_clash_port,
            clash_output_path: self.clash_output_path@,
        }
    }
}

/// The documented defaults: everything but the server address is preset.
pub open spec fn default_config() -> ConfigView {
    ConfigView {
        name: "resip-server"@,
        ssh_host: Seq::empty(),
        ssh_user: "ubuntu"@,
        ssh_port: 22,
        identity_file: "~/.ssh/id_ed25519"@,
        local_tunnel_host: "127.0.0.1"@,
        local_tunnel_port: 7891,
        remote_proxy_host: "127.0.0.1"@,
        remote_proxy_port: 7890,
        local_clash_port: 7890,
        clash_output_path: "~/Downloads/resip-resip-server.yaml"@,
    }
}

impl Default for Config {
    fn default() -> (c: Self)
        ensures
            c@ == default_config(),
    {
        Config {
            name: String::from_str("resip-server"),
            ssh_host: String::new(),
            ssh_user: String::from_str("ubuntu"),
            ssh_port: 22,
            identity_file: String::from_str("~/.ssh/id_ed25519"),
            local_tunnel_host: String::from_str("127.0.0.1"),
            local_tunnel_port: 7891,
            remote_proxy_host: String::from_str("127.0.0.1"),
            remote_proxy_port: 7890,
            local_clash_port: 7890,
            clash_output_path: String::from_str("~/Downloads/resip-resip-server.yaml"),
        }
    }
}

impl Config {
    /// Where the configuration is saved: `config.json` in the user's
    /// configuration directory for `resip`.
    pub fn path() -> (r: Result<String, ResipError>)
        ensures
            r is Err ==> r->Err_0 == ResipError::ConfigDirUnavailable,
            r is Ok ==> ends_with(r->Ok_0@, "config.json"@),
    {
        match project_dirs("", "", "resip") {
            Some(dirs) => {
                let dir = project_config_dir(&dirs);
                proof {
                    reveal_strlit("config.json");
                }
                assert forall|i: int| 0 <= i < "config.json"@.len() implies #[trigger] "config.json"@[i]
                    != '/' && "config.json"@[i] != '\\' by {}
                assert("config.json"@ != seq!['.', '.']);
                assert(is_plain_name("config.json"@));
                Ok(path_join(dir.as_str(), "config.json"))
            },
            None => Err(ResipError::ConfigDirUnavailable),
        }
    }
}

/// The SSH port that an answer names: a number that `str::parse::<u16>`
/// accepts, from 1 to 65535.
pub open spec fn ssh_port_spec(text: Seq<char>) -> Option<u16> {
    match parse_u16_spec(text) {
        Some(port) => if port >= 1 {
            Some(port)
        } else {
            None
        },
        None => None,
    }
}

/// Reads an SSH port answer: `InvalidSshPort` unless it is a number from 1
/// to 65535 (as `str::parse::<u16>` reads numbers).
pub fn parse_ssh_port(text: &str) -> (r: Result<u16, ResipError>)
    ensures
        r is Ok <==> ssh_port_spec(text@) is Some,
        r is Ok ==> Some(r->Ok_0) == ssh_port_spec(text@),
        r is Err ==> r->Err_0 == ResipError::InvalidSshPort,
{
    match parse_u16(text) {
        Some(port) => if port >= 1 {
            Ok(port)
        } else {
            Err(ResipError::InvalidSshPort)
        },
        None => Err(ResipError::InvalidSshPort),
    }
}

/// Law: offering a valid port as a prompt's default and accepting that
/// default yields the same port.
pub proof fn lemma_default_port_round_trip(port: u16)
    requires
        port >= 1,
    ensures
        ssh_port_spec(decimal(port as nat)) == Some(port),
{
    crate::support::text::lemma_parse_decimal_u16(port);
}

/// Law: port 0 is refused, whichever way it is written.
pub proof fn lemma_port_zero_refused(text: Seq<char>)
    requires
        parse_u16_spec(text) == Some(0u16),
    ensures
        ssh_port_spec(text) is None,
{
}

} // verus!

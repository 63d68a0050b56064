//! The questions of `resip init`: only the SSH settings are asked, everything
//! else keeps its default.
use crate::config::{parse_ssh_port, ssh_port_spec, Config, ConfigView, default_config};
use crate::error::ResipError;
use crate::support::dirs::path_is_file;
use crate::support::path::{
    collapse_home, default_clash_output_path, detect_default_identity_file, expand_tilde,
    collapses, default_output_rule, identity_candidates,
};
use crate::support::prompt::{default_answer_spec, resolve_default, resolve_required};
use crate::support::text::{decimal, decimal_string, trim_spec};
use vstd::prelude::*;

verus! {

/// Which answer the session waits for.
#[derive(Debug, Clone, Copy, PartialEq, Eq, Structural)]
pub enum InitStep {
    Server,
    User,
    Port,
    Identity,
    Finished,
}

/// What to ask or report next.
#[derive(Debug)]
pub enum InitAction {
    /// Ask a question that needs an answer; `again` after an empty answer.
    AskRequired { label: String, again: bool },
    /// Ask a question that offers `default`.
    AskWithDefault { label: String, default: String },
    /// Ask for the identity file, offering `default`; `key_missing` when no
    /// private key exists there.
    AskIdentity { default: String, key_missing: bool },
    /// All answers are in: the configuration is complete.
    Done,
    /// The answers cannot be used.
    Fail(ResipError),
}

/// A run of `resip init`.
#[derive(Debug)]
pub struct InitSession {
    pub config: Config,
    pub step: InitStep,
}

/// `action` asks the question `label`, which needs an answer.
pub open spec fn asks_required(action: InitAction, label: Seq<char>, again: bool) -> bool {
    match action {
        InitAction::AskRequired { label: l, again: a } => l@ == label && a == again,
        _ => false,
    }
}

/// `action` asks the question `label`, offering `default`.
pub open spec fn asks_with_default(action: InitAction, label: Seq<char>, default: Seq<char>) -> bool {
    match action {
        InitAction::AskWithDefault { label: l, default: d } => l@ == label && d@ == default,
        _ => false,
    }
}

/// `action` asks for the identity file, offering `default`.
pub open spec fn asks_identity(action: InitAction, default: Seq<char>) -> bool {
    match action {
        InitAction::AskIdentity { default: d, .. } => d@ == default,
        _ => false,
    }
}

/// The action that asks for the SSH user.
pub open spec fn asks_user(action: InitAction, c: ConfigView) -> bool {
    asks_with_default(action, "SSH user"@, c.ssh_user)
}

impl InitSession {
    /// Starts `resip init` with the server and Clash output path given on
    /// the command line, if any.
    pub fn start(server_ip: Option<String>, output: Option<String>) -> (r: (InitSession, InitAction))
        ensures
            r.0.config@.name == default_config().name,
            r.0.config@.ssh_port == default_config().ssh_port,
            r.0.config@.local_tunnel_port == default_config().local_tunnel_port,
            r.0.config@.remote_proxy_port == default_config().remote_proxy_port,
            r.0.config@.local_clash_port == default_config().local_clash_port,
            r.0.config@.local_tunnel_host == default_config().local_tunnel_host,
            r.0.config@.remote_proxy_host == default_config().remote_proxy_host,
            identity_candidates().contains(r.0.config@.identity_file),
            output matches Some(path) ==> r.0.config@.clash_output_path == path@,
            output is None && !(r.1 is Fail) ==> default_output_rule(
                default_config().name,
                r.0.config@.clash_output_path,
            ),
            r.1 is Fail ==> output is None && r.1 == InitAction::Fail(
                ResipError::HomeDirUnavailable,
            ) && r.0.step == InitStep::Finished,
            !(r.1 is Fail) ==> (match server_ip {
                Some(host) => r.0.step == InitStep::User && r.0.config@.ssh_host == host@
                    && r.0.config@.ssh_user == default_config().ssh_user && asks_user(
                    r.1,
                    r.0.config@,
                ),
                None => r.0.step == InitStep::Server && asks_required(r.1, "Server IP"@, false),
            }),
            output is Some ==> !(r.1 is Fail),
    {
        let mut config = Config::default();
        config.identity_file = detect_default_identity_file();
        match output {
            Some(path) => config.clash_output_path = path,
            None => match default_clash_output_path(config.name.as_str()) {
                Ok(path) => config.clash_output_path = path,
                Err(error) => {
                    return (
                        InitSession { config, step: InitStep::Finished },
                        InitAction::Fail(error),
                    );
                },
            },
        }
        match server_ip {
            Some(host) => {
                config.ssh_host = host;
                let default = config.ssh_user.clone();
                (
                    InitSession { config, step: InitStep::User },
                    InitAction::AskWithDefault { label: String::from_str("SSH user"), default },
                )
            },
            None => (
                InitSession { config, step: InitStep::Server },
                InitAction::AskRequired { label: String::from_str("Server IP"), again: false },
            ),
        }
    }

    /// Takes the line typed at the current question.
    pub fn answer(self, input: &str) -> (r: (InitSession, InitAction))
        requires
            self.step != InitStep::Finished,
        ensures
            self.step == InitStep::Server ==> (if trim_spec(input@).len() == 0 {
                r.0.step == InitStep::Server && r.0.config@ == self.config@ && asks_required(
                    r.1,
                    "Server IP"@,
                    true,
                )
            } else {
                r.0.step == InitStep::User && r.0.config@ == (ConfigView {
                    ssh_host: trim_spec(input@),
                    ..self.config@
                }) && asks_user(r.1, r.0.config@)
            }),
            self.step == InitStep::User ==> r.0.step == InitStep::Port && r.0.config@ == (
            ConfigView { ssh_user: default_answer_spec(input@, self.config@.ssh_user), ..self.config@ })
                && asks_with_default(r.1, "SSH port"@, decimal(self.config.ssh_port as nat)),
            self.step == InitStep::Port ==> (match ssh_port_spec(
                default_answer_spec(input@, decimal(self.config.ssh_port as nat)),
            ) {
                None => r.0.step == InitStep::Finished && r.1 == InitAction::Fail(
                    ResipError::InvalidSshPort,
                ),
                Some(port) => r.0.config@ == (ConfigView { ssh_port: port, ..self.config@ }) && ((
                asks_identity(r.1, self.config@.identity_file) && r.0.step == InitStep::Identity)
                    || (r.0.step == InitStep::Finished && r.1 == InitAction::Fail(
                    ResipError::HomeDirUnavailable,
                ))),
            }),
            self.step == InitStep::Identity ==> r.0.step == InitStep::Finished && (r.1
                == InitAction::Done || r.1 == InitAction::Fail(ResipError::HomeDirUnavailable)),
            self.step == InitStep::Identity && r.1 == InitAction::Done ==> r.0.config@ == (
            ConfigView { identity_file: r.0.config@.identity_file, ..self.config@ }) && (
            collapses(default_answer_spec(input@, self.config@.identity_file), r.0.config@.identity_file)),
    {
        let InitSession { mut config, step } = self;
        match step {
            InitStep::Server => match resolve_required(input) {
                None => (
                    InitSession { config, step: InitStep::Server },
                    InitAction::AskRequired { label: String::from_str("Server IP"), again: true },
                ),
                Some(host) => {
                    config.ssh_host = host;
                    let default = config.ssh_user.clone();
                    (
                        InitSession { config, step: InitStep::User },
                        InitAction::AskWithDefault { label: String::from_str("SSH user"), default },
                    )
                },
            },
            InitStep::User => {
                config.ssh_user = resolve_default(input, config.ssh_user.as_str());
                let default = decimal_string(config.ssh_port as u32);
                (
                    InitSession { config, step: InitStep::Port },
                    InitAction::AskWithDefault { label: String::from_str("SSH port"), default },
                )
            },
            InitStep::Port => {
                let default = decimal_string(config.ssh_port as u32);
                let text = resolve_default(input, default.as_str());
                match parse_ssh_port(text.as_str()) {
                    Err(error) => (
                        InitSession { config, step: InitStep::Finished },
                        InitAction::Fail(error),
                    ),
                    Ok(port) => {
                        config.ssh_port = port;
                        match expand_tilde(config.identity_file.as_str()) {
                            Err(error) => (
                                InitSession { config, step: InitStep::Finished },
                                InitAction::Fail(error),
                            ),
                            Ok(path) => {
                                let key_missing = !path_is_file(path.as_str());
                                let default = config.identity_file.clone();
                                (
                                    InitSession { config, step: InitStep::Identity },
                                    InitAction::AskIdentity { default, key_missing },
                                )
                            },
                        }
                    },
                }
            },
            InitStep::Identity => {
                let current = config.identity_file.clone();
                let answer = resolve_default(input, current.as_str());
                match collapse_home(answer.as_str()) {
                    Err(error) => (
                        InitSession { config, step: InitStep::Finished },
                        InitAction::Fail(error),
                    ),
                    Ok(identity_file) => {
                        config.identity_file = identity_file;
                        (InitSession { config, step: InitStep::Finished }, InitAction::Done)
                    },
                }
            },
            InitStep::Finished => (InitSession { config, step: InitStep::Finished }, InitAction::Done),
        }
    }
}

} // verus!

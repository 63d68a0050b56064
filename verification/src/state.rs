//! The record of a running tunnel.
use crate::error::ResipError;
use crate::support::dirs::{ends_with, is_plain_name, path_join, project_data_local_dir, project_dirs};
use vstd::prelude::*;

verus! {

/// What is known about a running SSH tunnel and its supervisor.
#[derive(Debug, Clone)]
pub struct State {
    pub pid: u32,
    pub started_at: String,
    pub local_tunnel_host: String,
    pub local_tunnel_port: u16,
    pub server: String,
    pub forward: Option<String>,
    pub destination: Option<String>,
    pub supervisor_pid: Option<u32>,
}

impl State {
    /// Where the state is saved: `state.json` in the user's local data
    /// directory for `resip`.
    pub fn path() -> (r: Result<String, ResipError>)
        ensures
            r is Err ==> r->Err_0 == ResipError::StateDirUnavailable,
            r is Ok ==> ends_with(r->Ok_0@, "state.json"@),
    {
        match project_dirs("", "", "resip") {
            Some(dirs) => {
                let dir = project_data_local_dir(&dirs);
                proof {
                    reveal_strlit("state.json");
                }
                assert forall|i: int| 0 <= i < "state.json"@.len() implies #[trigger] "state.json"@[i]
                    != '/' && "state.json"@[i] != '\\' by {}
                assert("state.json"@ != seq!['.', '.']);
                assert(is_plain_name("state.json"@));
                Ok(path_join(dir.as_str(), "state.json"))
            },
            None => Err(ResipError::StateDirUnavailable),
        }
    }
}

/// The view of an optional string.
pub open spec fn opt_view(s: Option<String>) -> Option<Seq<char>> {
    match s {
        Some(v) => Some(v@),
        None => None,
    }
}

/// The mathematical model of a `State`.
pub struct StateView {
    pub pid: u32,
    pub started_at: Seq<char>,
    pub local_tunnel_host: Seq<char>,
    pub local_tunnel_port: u16,
    pub server: Seq<char>,
    pub forward: Option<Seq<char>>,
    pub destination: Option<Seq<char>>,
    pub supervisor_pid: Option<u32>,
}

impl View for State {
    type V = StateView;

    open spec fn view(&self) -> StateView {
        StateView {
            pid: self.pid,
            started_at: self.started_at@,
            local_tunnel_host: self.local_tunnel_host@,
            local_tunnel_port: self.local_tunnel_port,
            server: self.server@,
            forward: opt_view(self.forward),
            destination: opt_view(self.destination),
            supervisor_pid: self.supervisor_pid,
        }
    }
}

} // verus!

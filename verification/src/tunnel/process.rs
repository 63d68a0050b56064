//! Recognising the SSH process that a saved `State` points at.
use crate::state::{State, StateView};
use crate::support::text::{contains, decimal, decimal_string, seq_contains};
use vstd::prelude::*;

verus! {

/// What the process behind a saved PID turned out to be.
#[derive(Debug, Clone, Copy, PartialEq, Eq, Structural)]
pub enum TunnelProcessStatus {
    Running,
    NotRunning,
    UnexpectedProcess,
}

/// Index of the last `:` in `s`, if any.
pub open spec fn last_colon(s: Seq<char>) -> Option<int>
    decreases s.len(),
{
    if s.len() == 0 {
        None
    } else if s.last() == ':' {
        Some(s.len() - 1)
    } else {
        last_colon(s.drop_last())
    }
}

/// The host part of a `user@host:port` server string: everything before
/// the last `:`, or the whole string when it has none.
pub open spec fn server_host_spec(server: Seq<char>) -> Seq<char> {
    match last_colon(server) {
        Some(i) => server.subrange(0, i),
        None => server,
    }
}

/// A process command line belongs to the tunnel recorded in `st`: it names
/// `ssh`, the recorded forward (or, for records without one, the local
/// port) and the recorded destination (or, without one, the server host).
pub open spec fn command_line_matches(command_line: Seq<char>, st: StateView) -> bool {
    &&& seq_contains(command_line, "ssh"@)
    &&& match st.forward {
        Some(forward) => seq_contains(command_line, forward),
        None => seq_contains(command_line, decimal(st.local_tunnel_port as nat)),
    }
    &&& match st.destination {
        Some(destination) => seq_contains(command_line, destination),
        None => seq_contains(command_line, server_host_spec(st.server)),
    }
}

/// The classification of a recorded tunnel, given whether its PID is alive
/// and, if it is, the command line that the system reports for it.
pub open spec fn process_status_spec(
    st: StateView,
    pid_running: bool,
    command_line: Option<Seq<char>>,
) -> TunnelProcessStatus {
    if !pid_running {
        TunnelProcessStatus::NotRunning
    } else if expected_process_spec(st, command_line) {
        TunnelProcessStatus::Running
    } else {
        TunnelProcessStatus::UnexpectedProcess
    }
}

/// A live PID is taken for the tunnel when its command line matches, or when
/// the system does not disclose the command line at all.
pub open spec fn expected_process_spec(st: StateView, command_line: Option<Seq<char>>) -> bool {
    match command_line {
        Some(cl) => command_line_matches(cl, st),
        None => true,
    }
}

/// The view of an optional string slice.
pub open spec fn opt_str_view(s: Option<&str>) -> Option<Seq<char>> {
    match s {
        Some(v) => Some(v@),
        None => None,
    }
}

/// The host part of a `user@host:port` server string (`rsplit_once(':')`).
pub fn server_host(server: &str) -> (r: String)
    ensures
        r@ == server_host_spec(server@),
{
    let v = crate::support::text::chars_of(server);
    let mut j: usize = v.len();
    assert(server@.subrange(0, j as int) =~= server@);
    while j > 0 && v[j - 1] != ':'
        invariant
            v@ == server@,
            j <= v@.len(),
            last_colon(server@) == last_colon(server@.subrange(0, j as int)),
        decreases j,
    {
        assert(server@.subrange(0, j as int).drop_last() =~= server@.subrange(0, j - 1));
        j = j - 1;
    }
    if j == 0 {
        assert(last_colon(server@.subrange(0, 0)) is None);
        crate::support::text::string_of(&v)
    } else {
        assert(last_colon(server@.subrange(0, j as int)) == Some(j - 1));
        crate::support::text::string_of_range(&v, 0, j - 1)
    }
}

/// Whether `command_line` looks like the SSH tunnel recorded in `state`.
pub fn command_line_matches_state(command_line: &str, state: &State) -> (r: bool)
    ensures
        r == command_line_matches(command_line@, state@),
{
    if !contains(command_line, "ssh") {
        return false;
    }
    match &state.forward {
        Some(forward) => {
            if !contains(command_line, forward.as_str()) {
                return false;
            }
        },
        None => {
            // Records without a forward only name the local port.
            let port = decimal_string(state.local_tunnel_port as u32);
            if !contains(command_line, port.as_str()) {
                return false;
            }
        },
    }
    match &state.destination {
        Some(destination) => contains(command_line, destination.as_str()),
        None => {
            let host = server_host(state.server.as_str());
            contains(command_line, host.as_str())
        },
    }
}

/// Whether a live PID is the tunnel recorded in `state`, given the command
/// line that the system reports for it (`None` when it reports none).
pub fn expected_ssh_process(state: &State, command_line: Option<&str>) -> (r: bool)
    ensures
        r == expected_process_spec(state@, opt_str_view(command_line)),
{
    match command_line {
        // Some platforms hide process details: a live but unreadable PID is
        // not reported as stale.
        None => true,
        Some(cl) => command_line_matches_state(cl, state),
    }
}

/// Classifies the process behind `state.pid`, given whether that PID is
/// alive and, when it is, the command line that the system reports for it.
pub fn state_process_status(
    state: &State,
    pid_running: bool,
    command_line: Option<&str>,
) -> (r: TunnelProcessStatus)
    ensures
        r == process_status_spec(state@, pid_running, opt_str_view(command_line)),
        !pid_running ==> r == TunnelProcessStatus::NotRunning,
        r == TunnelProcessStatus::Running ==> pid_running && (command_line matches Some(cl)
            ==> command_line_matches(cl@, state@)),
        r == TunnelProcessStatus::UnexpectedProcess ==> pid_running && (command_line matches Some(
            cl,
        ) && !command_line_matches(cl@, state@)),
        pid_running && command_line is None ==> r == TunnelProcessStatus::Running,
{
    if !pid_running {
        return TunnelProcessStatus::NotRunning;
    }
    if expected_ssh_process(state, command_line) {
        TunnelProcessStatus::Running
    } else {
        TunnelProcessStatus::UnexpectedProcess
    }
}

/// Law: a dead PID is never taken for the tunnel, whatever command line is
/// at hand; the tunnel is reported running only for a live PID whose
/// command line (when the system discloses one) matches the record, and a
/// live PID is reported as another program only when its disclosed command
/// line does not match.
pub proof fn lemma_dead_pid_is_not_running(
    st: StateView,
    pid_running: bool,
    command_line: Option<Seq<char>>,
)
    ensures
        !pid_running ==> process_status_spec(st, pid_running, command_line)
            == TunnelProcessStatus::NotRunning,
        process_status_spec(st, pid_running, command_line) == TunnelProcessStatus::Running
            ==> pid_running && (command_line matches Some(cl) ==> command_line_matches(cl, st)),
        process_status_spec(st, pid_running, command_line) == TunnelProcessStatus::UnexpectedProcess
            ==> pid_running && (command_line matches Some(cl) && !command_line_matches(cl, st)),
{
}

} // verus!

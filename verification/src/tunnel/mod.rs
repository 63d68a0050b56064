//! The SSH command line of the tunnel and the decisions around running it.
pub mod control;
pub mod process;

use crate::config::{Config, ConfigView};
use crate::state::{State, StateView};
use crate::support::dirs::ends_with;
use crate::support::text::{
    decimal, join, join_spec, lemma_join2, lemma_join4, lemma_join_split, occurs_at, push_char,
    push_decimal, seq_contains, starts_with, views,
};
use process::command_line_matches;
use vstd::prelude::*;

verus! {

/// The `-L` forward specification `local_host:local_port:remote_host:remote_port`.
pub open spec fn forward_of(c: ConfigView) -> Seq<char> {
    c.local_tunnel_host.push(':') + decimal(c.local_tunnel_port as nat) + seq![':']
        + c.remote_proxy_host + seq![':'] + decimal(c.remote_proxy_port as nat)
}

/// The SSH destination `user@host`.
pub open spec fn destination_of(c: ConfigView) -> Seq<char> {
    c.ssh_user.push('@') + c.ssh_host
}

/// The server as shown to users and recorded in the state: `user@host:port`.
pub open spec fn server_of(c: ConfigView) -> Seq<char> {
    destination_of(c).push(':') + decimal(c.ssh_port as nat)
}

/// The arguments passed to `ssh`: identity, port, fail-fast and keepalive
/// options, no remote command, and the local forward to `destination`.
pub open spec fn ssh_arg_list(
    port: u16,
    identity_file: Seq<char>,
    forward: Seq<char>,
    destination: Seq<char>,
) -> Seq<Seq<char>> {
    seq![
        "-i"@,
        identity_file,
        "-p"@,
        decimal(port as nat),
        "-o"@,
        "ExitOnForwardFailure=yes"@,
        "-o"@,
        "BatchMode=yes"@,
        "-o"@,
        "ConnectTimeout=10"@,
        "-o"@,
        "ServerAliveInterval=30"@,
        "-o"@,
        "ServerAliveCountMax=3"@,
        "-N"@,
        "-L"@,
        forward,
        destination,
    ]
}

/// The full SSH command for `c` with the given identity file, as a shell
/// line: `ssh` followed by the arguments separated by single spaces.
pub open spec fn ssh_command_line(c: ConfigView, identity_file: Seq<char>) -> Seq<char> {
    "ssh "@ + join_spec(
        ssh_arg_list(c.ssh_port, identity_file, forward_of(c), destination_of(c)),
        " "@,
    )
}

/// The state recorded for an SSH process started for `c`.
pub open spec fn running_state_spec(
    c: ConfigView,
    ssh_pid: u32,
    started_at: Seq<char>,
    forward: Seq<char>,
    destination: Seq<char>,
    supervisor_pid: Option<u32>,
) -> StateView {
    StateView {
        pid: ssh_pid,
        started_at,
        local_tunnel_host: c.local_tunnel_host,
        local_tunnel_port: c.local_tunnel_port,
        server: server_of(c),
        forward: Some(forward),
        destination: Some(destination),
        supervisor_pid,
    }
}

/// The local forward specification of `config`.
pub fn forward_spec(config: &Config) -> (r: String)
    ensures
        r@ == forward_of(config@),
{
    let mut r = config.local_tunnel_host.clone();
    push_char(&mut r, ':');
    push_decimal(&mut r, config.local_tunnel_port as u32);
    push_char(&mut r, ':');
    r.append(config.remote_proxy_host.as_str());
    push_char(&mut r, ':');
    push_decimal(&mut r, config.remote_proxy_port as u32);
    assert(r@ =~= forward_of(config@));
    r
}

/// The SSH destination of `config`.
pub fn destination(config: &Config) -> (r: String)
    ensures
        r@ == destination_of(config@),
{
    let mut r = config.ssh_user.clone();
    push_char(&mut r, '@');
    r.append(config.ssh_host.as_str());
    r
}

/// The server of `config` as `user@host:port`.
pub fn server_label(config: &Config) -> (r: String)
    ensures
        r@ == server_of(config@),
{
    let mut r = destination(config);
    push_char(&mut r, ':');
    push_decimal(&mut r, config.ssh_port as u32);
    r
}

/// The arguments passed to `ssh` for `config`.
pub fn ssh_args(config: &Config, identity_file: &str, forward: &str, destination: &str) -> (r: Vec<
    String,
>)
    ensures
        views(r@) == ssh_arg_list(config.ssh_port, identity_file@, forward@, destination@),
{
    let mut port = String::new();
    push_decimal(&mut port, config.ssh_port as u32);
    let mut r: Vec<String> = Vec::new();
    r.push(String::from_str("-i"));
    r.push(String::from_str(identity_file));
    r.push(String::from_str("-p"));
    r.push(port);
    r.push(String::from_str("-o"));
    r.push(String::from_str("ExitOnForwardFailure=yes"));
    r.push(String::from_str("-o"));
    r.push(String::from_str("BatchMode=yes"));
    r.push(String::from_str("-o"));
    r.push(String::from_str("ConnectTimeout=10"));
    r.push(String::from_str("-o"));
    r.push(String::from_str("ServerAliveInterval=30"));
    r.push(String::from_str("-o"));
    r.push(String::from_str("ServerAliveCountMax=3"));
    r.push(String::from_str("-N"));
    r.push(String::from_str("-L"));
    r.push(String::from_str(forward));
    r.push(String::from_str(destination));
    assert(views(r@) =~= ssh_arg_list(config.ssh_port, identity_file@, forward@, destination@));
    r
}

/// The equivalent shell command of the tunnel, with the identity file as
/// configured (unexpanded).
pub fn ssh_command_string(config: &Config) -> (r: String)
    ensures
        r@ == ssh_command_line(config@, config.identity_file@),
{
    let forward = forward_spec(config);
    let destination = destination(config);
    let args = ssh_args(config, config.identity_file.as_str(), forward.as_str(), destination.as_str());
    let mut r = String::from_str("ssh ");
    let joined = join(&args, " ");
    r.append(joined.as_str());
    r
}

/// The state to record for an SSH process started for `config`.
pub fn running_state(
    config: &Config,
    ssh_pid: u32,
    started_at: String,
    forward: String,
    destination: String,
    supervisor_pid: Option<u32>,
) -> (r: State)
    ensures
        r@ == running_state_spec(config@, ssh_pid, started_at@, forward@, destination@, supervisor_pid),
{
    State {
        pid: ssh_pid,
        started_at,
        local_tunnel_host: config.local_tunnel_host.clone(),
        local_tunnel_port: config.local_tunnel_port,
        server: server_label(config),
        forward: Some(forward),
        destination: Some(destination),
        supervisor_pid,
    }
}

/// Whether the supervisor recorded in `state` is alive, given whether the
/// recorded supervisor PID (when there is one) is running.
pub fn is_supervisor_running(state: &State, supervisor_pid_running: bool) -> (r: bool)
    ensures
        r == (state.supervisor_pid is Some && supervisor_pid_running),
{
    state.supervisor_pid.is_some() && supervisor_pid_running
}

/// Law: the state recorded for a started SSH process recognises that
/// process. Any command line that contains the spawned command (as `ps`
/// reports it, with the identity file in whatever form it was passed) is
/// taken for the recorded tunnel, so a running tunnel is never reported as
/// stale or foreign.
pub proof fn lemma_spawned_tunnel_is_recognised(
    c: ConfigView,
    identity_file: Seq<char>,
    ssh_pid: u32,
    started_at: Seq<char>,
    supervisor_pid: Option<u32>,
    command_line: Seq<char>,
)
    requires
        seq_contains(command_line, ssh_command_line(c, identity_file)),
    ensures
        command_line_matches(
            command_line,
            running_state_spec(
                c,
                ssh_pid,
                started_at,
                forward_of(c),
                destination_of(c),
                supervisor_pid,
            ),
        ),
{
    reveal_strlit("ssh ");
    reveal_strlit("ssh");
    let list = ssh_arg_list(c.ssh_port, identity_file, forward_of(c), destination_of(c));
    let joined = join_spec(list, " "@);
    let line = ssh_command_line(c, identity_file);
    assert(line == "ssh "@ + joined);
    assert(line.subrange(0, 3) =~= "ssh"@);
    assert(occurs_at(line, "ssh"@, 0));
    crate::support::text::lemma_contains_trans(command_line, line, "ssh"@);
    crate::support::text::lemma_join_contains(list, " "@, 16);
    crate::support::text::lemma_join_contains(list, " "@, 17);
    let i = choose|i: int| occurs_at(joined, forward_of(c), i);
    crate::support::text::lemma_occurs_in_suffix("ssh "@, joined, forward_of(c), i);
    crate::support::text::lemma_contains_trans(command_line, line, forward_of(c));
    let j = choose|j: int| occurs_at(joined, destination_of(c), j);
    crate::support::text::lemma_occurs_in_suffix("ssh "@, joined, destination_of(c), j);
    crate::support::text::lemma_contains_trans(command_line, line, destination_of(c));
}

/// The start of the tunnel's SSH command: identity file, then port.
proof fn lemma_ssh_command_prefix(c: ConfigView, identity_file: Seq<char>)
    ensures
        starts_with(
            ssh_command_line(c, identity_file),
            "ssh -i "@ + identity_file + " -p "@ + decimal(c.ssh_port as nat) + " "@,
        ),
{
    reveal_strlit("ssh ");
    reveal_strlit("ssh -i ");
    reveal_strlit(" -p ");
    reveal_strlit(" ");
    reveal_strlit("-i");
    reveal_strlit("-p");
    let sp = " "@;
    let port = decimal(c.ssh_port as nat);
    let list = ssh_arg_list(c.ssh_port, identity_file, forward_of(c), destination_of(c));
    let line = ssh_command_line(c, identity_file);
    lemma_join_split(list, sp, 4);
    assert(list.take(4) =~= seq!["-i"@, identity_file, "-p"@, port]);
    lemma_join4("-i"@, identity_file, "-p"@, port, sp);
    let prefix = "ssh -i "@ + identity_file + " -p "@ + port + " "@;
    assert(line =~= prefix + join_spec(list.skip(4), sp));
    assert(line.subrange(0, prefix.len() as int) =~= prefix);
}

/// The end of the tunnel's SSH command: no remote command, then the local
/// forward to the destination.
proof fn lemma_ssh_command_suffix(c: ConfigView, identity_file: Seq<char>)
    ensures
        ends_with(
            ssh_command_line(c, identity_file),
            "-N -L "@ + forward_of(c) + " "@ + destination_of(c),
        ),
{
    reveal_strlit(" ");
    reveal_strlit("-N");
    reveal_strlit("-L");
    reveal_strlit("-N -L ");
    let sp = " "@;
    let fwd = forward_of(c);
    let dest = destination_of(c);
    let list = ssh_arg_list(c.ssh_port, identity_file, fwd, dest);
    let line = ssh_command_line(c, identity_file);
    lemma_join_split(list, sp, 14);
    assert(list.skip(14) =~= seq!["-N"@, "-L"@, fwd, dest]);
    lemma_join4("-N"@, "-L"@, fwd, dest, sp);
    let suffix = "-N -L "@ + fwd + " "@ + dest;
    let head = "ssh "@ + join_spec(list.take(14), sp) + sp;
    assert(line =~= head + suffix);
    assert(line.subrange(line.len() - suffix.len(), line.len() as int) =~= suffix);
}

/// The option at argument `k` of the tunnel's SSH command (`-o` and its
/// value) appears in the command as `-o value`.
proof fn lemma_ssh_command_option(c: ConfigView, identity_file: Seq<char>, k: int)
    requires
        k == 4 || k == 6 || k == 8 || k == 10 || k == 12,
    ensures
        seq_contains(
            ssh_command_line(c, identity_file),
            "-o "@ + ssh_arg_list(c.ssh_port, identity_file, forward_of(c), destination_of(c))[k
                + 1],
        ),
{
    reveal_strlit(" ");
    reveal_strlit("-o");
    reveal_strlit("-o ");
    let sp = " "@;
    let list = ssh_arg_list(c.ssh_port, identity_file, forward_of(c), destination_of(c));
    let line = ssh_command_line(c, identity_file);
    lemma_join_split(list, sp, k);
    let tail = list.skip(k);
    lemma_join_split(tail, sp, 2);
    assert(tail.take(2) =~= seq!["-o"@, list[k + 1]]);
    lemma_join2("-o"@, list[k + 1], sp);
    let option = "-o "@ + list[k + 1];
    let before = "ssh "@ + join_spec(list.take(k), sp) + sp;
    assert(line =~= before + option + sp + join_spec(tail.skip(2), sp));
    assert(line.subrange(before.len() as int, (before.len() + option.len()) as int) =~= option);
    assert(occurs_at(line, option, before.len() as int));
}

/// Law: the tunnel's SSH command names the identity file and port first,
/// enables the client keepalive (`ServerAliveInterval=30`,
/// `ServerAliveCountMax=3`), and ends with the local forward to the
/// destination without a remote command.
pub proof fn lemma_ssh_command_shape(c: ConfigView, identity_file: Seq<char>)
    ensures
        starts_with(
            ssh_command_line(c, identity_file),
            "ssh -i "@ + identity_file + " -p "@ + decimal(c.ssh_port as nat) + " "@,
        ),
        seq_contains(ssh_command_line(c, identity_file), "-o ServerAliveInterval=30"@),
        seq_contains(ssh_command_line(c, identity_file), "-o ServerAliveCountMax=3"@),
        ends_with(
            ssh_command_line(c, identity_file),
            "-N -L "@ + forward_of(c) + " "@ + destination_of(c),
        ),
{
    reveal_strlit("-o ");
    reveal_strlit("ServerAliveInterval=30");
    reveal_strlit("ServerAliveCountMax=3");
    reveal_strlit("-o ServerAliveInterval=30");
    reveal_strlit("-o ServerAliveCountMax=3");
    lemma_ssh_command_prefix(c, identity_file);
    lemma_ssh_command_suffix(c, identity_file);
    let list = ssh_arg_list(c.ssh_port, identity_file, forward_of(c), destination_of(c));
    lemma_ssh_command_option(c, identity_file, 10);
    assert("-o "@ + list[11] =~= "-o ServerAliveInterval=30"@);
    lemma_ssh_command_option(c, identity_file, 12);
    assert("-o "@ + list[13] =~= "-o ServerAliveCountMax=3"@);
}

/// The lines that describe the tunnel of `c`, after an optional PID line.
pub open spec fn tunnel_details_spec(c: ConfigView, pid: Option<u32>) -> Seq<Seq<char>> {
    let pid_lines = match pid {
        Some(p) => seq!["PID: "@ + decimal(p as nat)],
        None => Seq::<Seq<char>>::empty(),
    };
    pid_lines + seq![
        "Local: "@ + c.local_tunnel_host.push(':') + decimal(c.local_tunnel_port as nat)
            + " on this machine"@,
        "SSH: "@ + server_of(c),
        "Remote target: "@ + c.remote_proxy_host.push(':') + decimal(c.remote_proxy_port as nat)
            + " on remote server"@,
    ]
}

/// The lines that identify the processes recorded in `st`.
pub open spec fn state_details_spec(st: StateView) -> Seq<Seq<char>> {
    let supervisor_lines = match st.supervisor_pid {
        Some(p) => seq!["Supervisor PID: "@ + decimal(p as nat)],
        None => Seq::<Seq<char>>::empty(),
    };
    supervisor_lines + seq!["SSH PID: "@ + decimal(st.pid as nat)]
}

/// The lines that `resip` prints to describe the tunnel of `config`.
pub fn tunnel_details(config: &Config, pid: Option<u32>) -> (r: Vec<String>)
    ensures
        views(r@) == tunnel_details_spec(config@, pid),
{
    let mut r: Vec<String> = Vec::new();
    if let Some(p) = pid {
        let mut line = String::from_str("PID: ");
        push_decimal(&mut line, p);
        r.push(line);
    }
    let mut local = String::from_str("Local: ");
    local.append(config.local_tunnel_host.as_str());
    push_char(&mut local, ':');
    push_decimal(&mut local, config.local_tunnel_port as u32);
    local.append(" on this machine");
    r.push(local);
    let mut ssh = String::from_str("SSH: ");
    let server = server_label(config);
    ssh.append(server.as_str());
    r.push(ssh);
    let mut remote = String::from_str("Remote target: ");
    remote.append(config.remote_proxy_host.as_str());
    push_char(&mut remote, ':');
    push_decimal(&mut remote, config.remote_proxy_port as u32);
    remote.append(" on remote server");
    r.push(remote);
    assert(views(r@) =~= tunnel_details_spec(config@, pid));
    r
}

/// The lines that `resip` prints to identify the processes of a recorded
/// tunnel.
pub fn state_details(state: &State) -> (r: Vec<String>)
    ensures
        views(r@) == state_details_spec(state@),
{
    let mut r: Vec<String> = Vec::new();
    if let Some(p) = state.supervisor_pid {
        let mut line = String::from_str("Supervisor PID: ");
        push_decimal(&mut line, p);
        r.push(line);
    }
    let mut line = String::from_str("SSH PID: ");
    push_decimal(&mut line, state.pid);
    r.push(line);
    assert(views(r@) =~= state_details_spec(state@));
    r
}

} // verus!

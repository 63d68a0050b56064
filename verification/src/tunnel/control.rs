//! The decisions of `resip on`, `resip off` and the supervisor, apart from
//! the processes, files and clocks that they act on: `TunnelStart` for
//! `resip on`, `stop_step` for `resip off`, and the single looks of the
//! supervisor and of the waits for a forward.
use crate::config::Config;
use crate::error::ResipError;
use crate::state::{State, StateView};
use crate::config::ConfigView;
use super::running_state_spec;
use super::process::TunnelProcessStatus;
use vstd::prelude::*;

verus! {

/// Where the start of a tunnel stands.
#[derive(Debug)]
pub enum StartPhase {
    Begin,
    LoadingExisting,
    Inspecting,
    AwaitingAnswer,
    Stopping,
    RemovingStale,
    CheckingSsh,
    CheckingPort,
    Spawning,
    Waiting { supervisor_pid: u32 },
    Confirming { supervisor_pid: u32 },
    Finished,
}

/// What happened since the last action.
#[derive(Debug)]
pub enum StartEvent {
    /// The command was invoked.
    Invoked,
    /// The saved state was read (`None`: there is none).
    StateLoaded(Option<State>),
    /// The existing tunnel was inspected: whether its supervisor is alive
    /// and what its SSH process is.
    Inspected { existing: State, supervisor_running: bool, status: TunnelProcessStatus },
    /// The user answered whether to restart the existing tunnel.
    RestartAnswered(bool),
    /// The existing tunnel was stopped.
    Stopped,
    /// The stale state was reported and removed.
    StaleRemoved,
    /// Whether `ssh` was found in `PATH`.
    SshFound(bool),
    /// Whether the local tunnel port is free.
    PortAvailable(bool),
    /// The supervisor process was started.
    SupervisorSpawned(u32),
    /// The supervisor's SSH forward became active.
    ForwardReady,
}

/// What to do next.
#[derive(Debug)]
pub enum StartAction {
    /// Read the saved state.
    LoadState,
    /// Find out whether the recorded supervisor and tunnel are alive.
    Inspect(State),
    /// Show the managed tunnel and ask whether to restart it.
    AskRestart(State),
    /// Stop the existing tunnel (`resip off`).
    StopExisting,
    /// Report the stale state and remove it.
    RemoveStale(State),
    /// Look for `ssh` in `PATH`.
    CheckSsh,
    /// Check that the local tunnel port is free.
    CheckPort { host: String, port: u16 },
    /// Start the supervisor in the background.
    SpawnSupervisor,
    /// Wait until the supervisor's forward is active.
    AwaitForward { supervisor_pid: u32 },
    /// Read the state that the supervisor saved.
    LoadStarted,
    /// Report the started tunnel; done.
    ReportStarted { supervisor_pid: u32, state: State },
    /// Keep the existing tunnel; done.
    KeepExisting,
    /// Give up with an error; done.
    Fail(ResipError),
}

/// The start of a tunnel for one configuration.
#[derive(Debug)]
pub struct TunnelStart {
    pub force: bool,
    pub host: String,
    pub port: u16,
    pub phase: StartPhase,
}

/// An existing tunnel is managed when its supervisor or its SSH process is
/// alive; otherwise its state is stale.
pub open spec fn is_managed(supervisor_running: bool, status: TunnelProcessStatus) -> bool {
    supervisor_running || status == TunnelProcessStatus::Running
}

/// The events that a phase waits for.
pub open spec fn accepts_spec(phase: StartPhase, event: StartEvent) -> bool {
    match (phase, event) {
        (StartPhase::Begin, StartEvent::Invoked) => true,
        (StartPhase::LoadingExisting, StartEvent::StateLoaded(_)) => true,
        (StartPhase::Inspecting, StartEvent::Inspected { .. }) => true,
        (StartPhase::AwaitingAnswer, StartEvent::RestartAnswered(_)) => true,
        (StartPhase::Stopping, StartEvent::Stopped) => true,
        (StartPhase::RemovingStale, StartEvent::StaleRemoved) => true,
        (StartPhase::CheckingSsh, StartEvent::SshFound(_)) => true,
        (StartPhase::CheckingPort, StartEvent::PortAvailable(_)) => true,
        (StartPhase::Spawning, StartEvent::SupervisorSpawned(_)) => true,
        (StartPhase::Waiting { .. }, StartEvent::ForwardReady) => true,
        (StartPhase::Confirming { .. }, StartEvent::StateLoaded(_)) => true,
        _ => false,
    }
}

/// The transition of the start protocol: the next phase and the action.
pub open spec fn start_transition(
    force: bool,
    host: String,
    port: u16,
    phase: StartPhase,
    event: StartEvent,
) -> (StartPhase, StartAction) {
    match (phase, event) {
        (StartPhase::Begin, StartEvent::Invoked) => (
            StartPhase::LoadingExisting,
            StartAction::LoadState,
        ),
        (StartPhase::LoadingExisting, StartEvent::StateLoaded(loaded)) => match loaded {
            Some(existing) => (StartPhase::Inspecting, StartAction::Inspect(existing)),
            None => (StartPhase::CheckingSsh, StartAction::CheckSsh),
        },
        (
            StartPhase::Inspecting,
            StartEvent::Inspected { existing, supervisor_running, status },
        ) => if !is_managed(supervisor_running, status) {
            (StartPhase::RemovingStale, StartAction::RemoveStale(existing))
        } else if force {
            (StartPhase::Stopping, StartAction::StopExisting)
        } else {
            (StartPhase::AwaitingAnswer, StartAction::AskRestart(existing))
        },
        (StartPhase::AwaitingAnswer, StartEvent::RestartAnswered(restart)) => if restart {
            (StartPhase::Stopping, StartAction::StopExisting)
        } else {
            (StartPhase::Finished, StartAction::KeepExisting)
        },
        (StartPhase::Stopping, StartEvent::Stopped) => (
            StartPhase::CheckingSsh,
            StartAction::CheckSsh,
        ),
        (StartPhase::RemovingStale, StartEvent::StaleRemoved) => (
            StartPhase::CheckingSsh,
            StartAction::CheckSsh,
        ),
        (StartPhase::CheckingSsh, StartEvent::SshFound(found)) => if found {
            (StartPhase::CheckingPort, StartAction::CheckPort { host, port })
        } else {
            (StartPhase::Finished, StartAction::Fail(ResipError::SshNotFound))
        },
        (StartPhase::CheckingPort, StartEvent::PortAvailable(available)) => if available {
            (StartPhase::Spawning, StartAction::SpawnSupervisor)
        } else {
            (StartPhase::Finished, StartAction::Fail(ResipError::PortInUse { host, port }))
        },
        (StartPhase::Spawning, StartEvent::SupervisorSpawned(supervisor_pid)) => (
            StartPhase::Waiting { supervisor_pid },
            StartAction::AwaitForward { supervisor_pid },
        ),
        (StartPhase::Waiting { supervisor_pid }, StartEvent::ForwardReady) => (
            StartPhase::Confirming { supervisor_pid },
            StartAction::LoadStarted,
        ),
        (StartPhase::Confirming { supervisor_pid }, StartEvent::StateLoaded(loaded)) => match loaded {
            Some(state) => (StartPhase::Finished, StartAction::ReportStarted { supervisor_pid, state }),
            None => (
                StartPhase::Finished,
                StartAction::Fail(ResipError::SshForwardNotReady { host, port }),
            ),
        },
        (phase, _) => (phase, StartAction::LoadState),
    }
}

impl TunnelStart {
    /// Starts the protocol for `config`; `force` replaces a managed tunnel
    /// without asking.
    pub fn new(config: &Config, force: bool) -> (r: TunnelStart)
        ensures
            r.force == force,
            r.host == config.local_tunnel_host,
            r.port == config.local_tunnel_port,
            r.phase == StartPhase::Begin,
    {
        TunnelStart {
            force,
            host: config.local_tunnel_host.clone(),
            port: config.local_tunnel_port,
            phase: StartPhase::Begin,
        }
    }

    /// Whether the current phase waits for `event`.
    pub fn accepts(&self, event: &StartEvent) -> (r: bool)
        ensures
            r == accepts_spec(self.phase, *event),
    {
        match (&self.phase, event) {
            (StartPhase::Begin, StartEvent::Invoked) => true,
            (StartPhase::LoadingExisting, StartEvent::StateLoaded(_)) => true,
            (StartPhase::Inspecting, StartEvent::Inspected { .. }) => true,
            (StartPhase::AwaitingAnswer, StartEvent::RestartAnswered(_)) => true,
            (StartPhase::Stopping, StartEvent::Stopped) => true,
            (StartPhase::RemovingStale, StartEvent::StaleRemoved) => true,
            (StartPhase::CheckingSsh, StartEvent::SshFound(_)) => true,
            (StartPhase::CheckingPort, StartEvent::PortAvailable(_)) => true,
            (StartPhase::Spawning, StartEvent::SupervisorSpawned(_)) => true,
            (StartPhase::Waiting { .. }, StartEvent::ForwardReady) => true,
            (StartPhase::Confirming { .. }, StartEvent::StateLoaded(_)) => true,
            _ => false,
        }
    }

    /// Feeds `event` to the protocol and returns the next action.
    pub fn step(self, event: StartEvent) -> (r: (TunnelStart, StartAction))
        requires
            accepts_spec(self.phase, event),
        ensures
            r.0.force == self.force,
            r.0.host == self.host,
            r.0.port == self.port,
            (r.0.phase, r.1) == start_transition(self.force, self.host, self.port, self.phase, event),
            self.phase is AwaitingAnswer && event == StartEvent::RestartAnswered(true) ==> (r.1
                is StopExisting && r.0.phase is Stopping),
            self.phase is AwaitingAnswer ==> (r.0.phase is Stopping || r.0.phase is Finished),
            r.0.phase is CheckingSsh ==> (self.phase is Stopping || self.phase is RemovingStale
                || self.phase is LoadingExisting),
    {
        let TunnelStart { force, host, port, phase } = self;
        let (next, action) = match (phase, event) {
            (StartPhase::Begin, StartEvent::Invoked) => (
                StartPhase::LoadingExisting,
                StartAction::LoadState,
            ),
            (StartPhase::LoadingExisting, StartEvent::StateLoaded(loaded)) => match loaded {
                Some(existing) => (StartPhase::Inspecting, StartAction::Inspect(existing)),
                None => (StartPhase::CheckingSsh, StartAction::CheckSsh),
            },
            (
                StartPhase::Inspecting,
                StartEvent::Inspected { existing, supervisor_running, status },
            ) => {
                let managed = supervisor_running || status == TunnelProcessStatus::Running;
                if !managed {
                    (StartPhase::RemovingStale, StartAction::RemoveStale(existing))
                } else if force {
                    (StartPhase::Stopping, StartAction::StopExisting)
                } else {
                    (StartPhase::AwaitingAnswer, StartAction::AskRestart(existing))
                }
            },
            (StartPhase::AwaitingAnswer, StartEvent::RestartAnswered(restart)) => if restart {
                (StartPhase::Stopping, StartAction::StopExisting)
            } else {
                (StartPhase::Finished, StartAction::KeepExisting)
            },
            (StartPhase::Stopping, StartEvent::Stopped) => (
                StartPhase::CheckingSsh,
                StartAction::CheckSsh,
            ),
            (StartPhase::RemovingStale, StartEvent::StaleRemoved) => (
                StartPhase::CheckingSsh,
                StartAction::CheckSsh,
            ),
            (StartPhase::CheckingSsh, StartEvent::SshFound(found)) => if found {
                (StartPhase::CheckingPort, StartAction::CheckPort { host: host.clone(), port })
            } else {
                (StartPhase::Finished, StartAction::Fail(ResipError::SshNotFound))
            },
            (StartPhase::CheckingPort, StartEvent::PortAvailable(available)) => if available {
                (StartPhase::Spawning, StartAction::SpawnSupervisor)
            } else {
                (
                    StartPhase::Finished,
                    StartAction::Fail(ResipError::PortInUse { host: host.clone(), port }),
                )
            },
            (StartPhase::Spawning, StartEvent::SupervisorSpawned(supervisor_pid)) => (
                StartPhase::Waiting { supervisor_pid },
                StartAction::AwaitForward { supervisor_pid },
            ),
            (StartPhase::Waiting { supervisor_pid }, StartEvent::ForwardReady) => (
                StartPhase::Confirming { supervisor_pid },
                StartAction::LoadStarted,
            ),
            (StartPhase::Confirming { supervisor_pid }, StartEvent::StateLoaded(loaded)) => match loaded {
                Some(state) => (
                    StartPhase::Finished,
                    StartAction::ReportStarted { supervisor_pid, state },
                ),
                None => (
                    StartPhase::Finished,
                    StartAction::Fail(ResipError::SshForwardNotReady { host: host.clone(), port }),
                ),
            },
            (phase, _) => (phase, StartAction::LoadState),
        };
        (TunnelStart { force, host, port, phase: next }, action)
    }
}

/// The outcome of one look at a forward that is being set up.
#[derive(Debug)]
pub enum ForwardWait {
    /// The forward is active.
    Ready,
    /// Not yet: look again after a short pause.
    Pending,
    /// Setting up the forward failed.
    Failed(ResipError),
}

/// The view of an optional borrowed state.
pub open spec fn opt_state_view(recorded: Option<&State>) -> Option<StateView> {
    match recorded {
        Some(s) => Some(s@),
        None => None,
    }
}

/// The supervisor reconnects after its SSH process exits only while the
/// saved state still names this supervisor and that SSH process; `resip
/// off` removes the state, and a newer start replaces it.
pub open spec fn keeps_running_spec(recorded: Option<StateView>, supervisor_pid: u32, ssh_pid: u32) -> bool {
    match recorded {
        Some(s) => s.supervisor_pid == Some(supervisor_pid) && s.pid == ssh_pid,
        None => false,
    }
}

/// The wait of `resip on` for the supervisor's forward, after one look:
/// failure once the supervisor has died, ready once the saved state names
/// this supervisor and its SSH process runs.
pub open spec fn supervised_wait_spec(
    supervisor_pid: u32,
    supervisor_alive: bool,
    recorded: Option<StateView>,
    recorded_tunnel_running: bool,
) -> ForwardWait {
    if !supervisor_alive {
        ForwardWait::Failed(ResipError::SupervisorExitedImmediately)
    } else if recorded matches Some(s) && s.supervisor_pid == Some(supervisor_pid)
        && recorded_tunnel_running {
        ForwardWait::Ready
    } else {
        ForwardWait::Pending
    }
}

/// Whether the supervisor starts SSH again after its SSH process `ssh_pid`
/// exited, given the state saved at that moment.
pub fn supervisor_keeps_running(recorded: Option<&State>, supervisor_pid: u32, ssh_pid: u32) -> (r:
    bool)
    ensures
        r == keeps_running_spec(opt_state_view(recorded), supervisor_pid, ssh_pid),
{
    match recorded {
        Some(s) => s.supervisor_pid == Some(supervisor_pid) && s.pid == ssh_pid,
        None => false,
    }
}

/// One look at the supervisor's forward: whether the supervisor is alive,
/// the saved state, and whether that state's SSH process is the running
/// tunnel.
pub fn supervised_forward_step(
    supervisor_pid: u32,
    supervisor_alive: bool,
    recorded: Option<&State>,
    recorded_tunnel_running: bool,
) -> (r: ForwardWait)
    ensures
        r == supervised_wait_spec(
            supervisor_pid,
            supervisor_alive,
            opt_state_view(recorded),
            recorded_tunnel_running,
        ),
{
    if !supervisor_alive {
        return ForwardWait::Failed(ResipError::SupervisorExitedImmediately);
    }
    match recorded {
        Some(s) => if s.supervisor_pid == Some(supervisor_pid) && recorded_tunnel_running {
            ForwardWait::Ready
        } else {
            ForwardWait::Pending
        },
        None => ForwardWait::Pending,
    }
}

/// One look at a freshly spawned SSH process: failure when it has already
/// exited (with the reason), ready once it holds the local port.
pub fn ssh_forward_step(exit_reason: Option<String>, port_available: bool) -> (r: ForwardWait)
    ensures
        exit_reason matches Some(reason) ==> r == ForwardWait::Failed(
            ResipError::SshExitedImmediately { reason },
        ),
        exit_reason is None && !port_available ==> r == ForwardWait::Ready,
        exit_reason is None && port_available ==> r == ForwardWait::Pending,
{
    match exit_reason {
        Some(reason) => ForwardWait::Failed(ResipError::SshExitedImmediately { reason }),
        None => if port_available {
            ForwardWait::Pending
        } else {
            ForwardWait::Ready
        },
    }
}

/// Law: with `--force`, a managed tunnel is replaced without a question.
pub proof fn lemma_force_never_asks(
    host: String,
    port: u16,
    phase: StartPhase,
    event: StartEvent,
)
    ensures
        !(start_transition(true, host, port, phase, event).1 is AskRestart),
{
}

/// Law: the supervisor is started only right after the local port was found
/// free, which itself is checked only after `ssh` was found.
pub proof fn lemma_spawn_only_when_clear(
    force: bool,
    host: String,
    port: u16,
    phase: StartPhase,
    event: StartEvent,
)
    requires
        accepts_spec(phase, event),
    ensures
        start_transition(force, host, port, phase, event).1 is SpawnSupervisor ==> (phase
            is CheckingPort && event == StartEvent::PortAvailable(true)),
        start_transition(force, host, port, phase, event).1 is CheckPort ==> (phase is CheckingSsh
            && event == StartEvent::SshFound(true)),
{
}

/// The event reports a managed tunnel.
pub open spec fn replaces_managed(event: StartEvent) -> bool {
    match event {
        StartEvent::Inspected { supervisor_running, status, .. } => is_managed(
            supervisor_running,
            status,
        ),
        _ => false,
    }
}

/// Law: a managed tunnel is kept only when the user declines the restart,
/// and it is stopped only with `--force` or the user's consent.
pub proof fn lemma_managed_tunnel_needs_consent(
    force: bool,
    host: String,
    port: u16,
    phase: StartPhase,
    event: StartEvent,
)
    requires
        accepts_spec(phase, event),
    ensures
        start_transition(force, host, port, phase, event).1 is KeepExisting ==> (phase
            is AwaitingAnswer && event == StartEvent::RestartAnswered(false)),
        start_transition(force, host, port, phase, event).1 is StopExisting ==> ((phase
            is AwaitingAnswer && event == StartEvent::RestartAnswered(true)) || (phase
            is Inspecting && force && replaces_managed(event))),
{
}

/// Law: a supervisor keeps its tunnel alive across SSH exits for as long as
/// the state it saved is in place, and stops once that state is gone (`resip
/// off`) or names another supervisor or SSH process.
pub proof fn lemma_supervisor_reconnects_until_off(
    c: ConfigView,
    ssh_pid: u32,
    started_at: Seq<char>,
    forward: Seq<char>,
    destination: Seq<char>,
    supervisor_pid: u32,
    other: StateView,
)
    ensures
        keeps_running_spec(
            Some(
                running_state_spec(
                    c,
                    ssh_pid,
                    started_at,
                    forward,
                    destination,
                    Some(supervisor_pid),
                ),
            ),
            supervisor_pid,
            ssh_pid,
        ),
        !keeps_running_spec(None, supervisor_pid, ssh_pid),
        (other.supervisor_pid != Some(supervisor_pid) || other.pid != ssh_pid) ==> !keeps_running_spec(
            Some(other),
            supervisor_pid,
            ssh_pid,
        ),
{
}

/// Law: once the supervisor has saved the state of its running SSH process,
/// the wait of `resip on` ends as ready.
pub proof fn lemma_saved_tunnel_ends_wait(
    c: ConfigView,
    ssh_pid: u32,
    started_at: Seq<char>,
    forward: Seq<char>,
    destination: Seq<char>,
    supervisor_pid: u32,
)
    ensures
        supervised_wait_spec(
            supervisor_pid,
            true,
            Some(
                running_state_spec(
                    c,
                    ssh_pid,
                    started_at,
                    forward,
                    destination,
                    Some(supervisor_pid),
                ),
            ),
            true,
        ) == ForwardWait::Ready,
{
}

/// Where `resip off` stands.
#[derive(Debug)]
pub enum StopPhase {
    Begin,
    Loading,
    CheckingSupervisor { supervisor_pid: u32, ssh_pid: u32 },
    StoppingSupervisor { supervisor_pid: u32, ssh_pid: u32 },
    CheckingTunnel { ssh_pid: u32 },
    StoppingTunnel { ssh_pid: u32 },
    Removing,
    Finished,
}

/// What happened since the last action of `resip off`.
#[derive(Debug)]
pub enum StopEvent {
    /// The command was invoked.
    Invoked,
    /// No tunnel state is saved.
    NothingRecorded,
    /// The saved state names these processes.
    Recorded { supervisor_pid: Option<u32>, ssh_pid: u32 },
    /// Whether the recorded supervisor is alive.
    SupervisorChecked(bool),
    /// What the recorded SSH process is now.
    TunnelChecked(TunnelProcessStatus),
    /// A process was sent the signal to stop, or that failed.
    Killed(Result<(), ResipError>),
    /// The saved state was removed.
    StateRemoved,
}

/// What `resip off` does next.
#[derive(Debug)]
pub enum StopAction {
    /// Read the saved state.
    LoadState,
    /// Report that no tunnel is running; done.
    ReportNotRunning,
    /// Find out whether the supervisor with this PID is alive.
    CheckSupervisor(u32),
    /// Stop the supervisor with this PID.
    KillSupervisor(u32),
    /// Find out what the recorded SSH process is now.
    CheckTunnel,
    /// Stop the SSH process with this PID.
    KillTunnel(u32),
    /// Remove the saved state after the processes were stopped.
    RemoveState,
    /// Report that the recorded SSH process `ssh_pid` is gone or is another
    /// program (`status`), and remove the saved state.
    RemoveStaleState { ssh_pid: u32, status: TunnelProcessStatus },
    /// The tunnel is stopped; done.
    Done,
    /// Give up with an error, leaving the saved state in place; done.
    Fail(ResipError),
}

/// The events that a phase of `resip off` waits for.
pub open spec fn stop_accepts(phase: StopPhase, event: StopEvent) -> bool {
    match (phase, event) {
        (StopPhase::Begin, StopEvent::Invoked) => true,
        (StopPhase::Loading, StopEvent::NothingRecorded) => true,
        (StopPhase::Loading, StopEvent::Recorded { .. }) => true,
        (StopPhase::CheckingSupervisor { .. }, StopEvent::SupervisorChecked(_)) => true,
        (StopPhase::StoppingSupervisor { .. }, StopEvent::Killed(_)) => true,
        (StopPhase::CheckingTunnel { .. }, StopEvent::TunnelChecked(_)) => true,
        (StopPhase::StoppingTunnel { .. }, StopEvent::Killed(_)) => true,
        (StopPhase::Removing, StopEvent::StateRemoved) => true,
        _ => false,
    }
}

/// The transition of `resip off`: the supervisor is stopped first when it
/// is alive, then the SSH process when it is the recorded tunnel, and the
/// saved state is removed last; a failed stop ends the command and keeps
/// the state.
pub open spec fn stop_transition(phase: StopPhase, event: StopEvent) -> (StopPhase, StopAction) {
    match (phase, event) {
        (StopPhase::Begin, StopEvent::Invoked) => (StopPhase::Loading, StopAction::LoadState),
        (StopPhase::Loading, StopEvent::NothingRecorded) => (
            StopPhase::Finished,
            StopAction::ReportNotRunning,
        ),
        (StopPhase::Loading, StopEvent::Recorded { supervisor_pid, ssh_pid }) => match supervisor_pid {
            Some(p) => (
                StopPhase::CheckingSupervisor { supervisor_pid: p, ssh_pid },
                StopAction::CheckSupervisor(p),
            ),
            None => (StopPhase::CheckingTunnel { ssh_pid }, StopAction::CheckTunnel),
        },
        (
            StopPhase::CheckingSupervisor { supervisor_pid, ssh_pid },
            StopEvent::SupervisorChecked(alive),
        ) => if alive {
            (
                StopPhase::StoppingSupervisor { supervisor_pid, ssh_pid },
                StopAction::KillSupervisor(supervisor_pid),
            )
        } else {
            (StopPhase::CheckingTunnel { ssh_pid }, StopAction::CheckTunnel)
        },
        (StopPhase::StoppingSupervisor { ssh_pid, .. }, StopEvent::Killed(outcome)) => match outcome {
            Ok(_) => (StopPhase::CheckingTunnel { ssh_pid }, StopAction::CheckTunnel),
            Err(error) => (StopPhase::Finished, StopAction::Fail(error)),
        },
        (StopPhase::CheckingTunnel { ssh_pid }, StopEvent::TunnelChecked(status)) => if status
            == TunnelProcessStatus::Running {
            (StopPhase::StoppingTunnel { ssh_pid }, StopAction::KillTunnel(ssh_pid))
        } else {
            (StopPhase::Removing, StopAction::RemoveStaleState { ssh_pid, status })
        },
        (StopPhase::StoppingTunnel { .. }, StopEvent::Killed(outcome)) => match outcome {
            Ok(_) => (StopPhase::Removing, StopAction::RemoveState),
            Err(error) => (StopPhase::Finished, StopAction::Fail(error)),
        },
        (StopPhase::Removing, StopEvent::StateRemoved) => (StopPhase::Finished, StopAction::Done),
        (phase, _) => (phase, StopAction::LoadState),
    }
}

/// Whether `phase` waits for `event`.
pub fn stop_accepts_event(phase: &StopPhase, event: &StopEvent) -> (r: bool)
    ensures
        r == stop_accepts(*phase, *event),
{
    match (phase, event) {
        (StopPhase::Begin, StopEvent::Invoked) => true,
        (StopPhase::Loading, StopEvent::NothingRecorded) => true,
        (StopPhase::Loading, StopEvent::Recorded { .. }) => true,
        (StopPhase::CheckingSupervisor { .. }, StopEvent::SupervisorChecked(_)) => true,
        (StopPhase::StoppingSupervisor { .. }, StopEvent::Killed(_)) => true,
        (StopPhase::CheckingTunnel { .. }, StopEvent::TunnelChecked(_)) => true,
        (StopPhase::StoppingTunnel { .. }, StopEvent::Killed(_)) => true,
        (StopPhase::Removing, StopEvent::StateRemoved) => true,
        _ => false,
    }
}

/// Feeds `event` to `resip off` in `phase`: the next phase and action.
pub fn stop_step(phase: StopPhase, event: StopEvent) -> (r: (StopPhase, StopAction))
    requires
        stop_accepts(phase, event),
    ensures
        r == stop_transition(phase, event),
        phase is CheckingTunnel && finds_tunnel_gone(event) ==> (r.0 is Removing && r.1
            == StopAction::RemoveStaleState {
            ssh_pid: phase->CheckingTunnel_ssh_pid,
            status: event->TunnelChecked_0,
        }),
        r.1 is ReportNotRunning ==> (phase is Loading && event is NothingRecorded),
        r.1 is Done ==> (phase is Removing && event is StateRemoved),
{
    match (phase, event) {
        (StopPhase::Begin, StopEvent::Invoked) => (StopPhase::Loading, StopAction::LoadState),
        (StopPhase::Loading, StopEvent::NothingRecorded) => (
            StopPhase::Finished,
            StopAction::ReportNotRunning,
        ),
        (StopPhase::Loading, StopEvent::Recorded { supervisor_pid, ssh_pid }) => match supervisor_pid {
            Some(p) => (
                StopPhase::CheckingSupervisor { supervisor_pid: p, ssh_pid },
                StopAction::CheckSupervisor(p),
            ),
            None => (StopPhase::CheckingTunnel { ssh_pid }, StopAction::CheckTunnel),
        },
        (
            StopPhase::CheckingSupervisor { supervisor_pid, ssh_pid },
            StopEvent::SupervisorChecked(alive),
        ) => if alive {
            (
                StopPhase::StoppingSupervisor { supervisor_pid, ssh_pid },
                StopAction::KillSupervisor(supervisor_pid),
            )
        } else {
            (StopPhase::CheckingTunnel { ssh_pid }, StopAction::CheckTunnel)
        },
        (StopPhase::StoppingSupervisor { ssh_pid, .. }, StopEvent::Killed(outcome)) => match outcome {
            Ok(_) => (StopPhase::CheckingTunnel { ssh_pid }, StopAction::CheckTunnel),
            Err(error) => (StopPhase::Finished, StopAction::Fail(error)),
        },
        (StopPhase::CheckingTunnel { ssh_pid }, StopEvent::TunnelChecked(status)) => {
            if status == TunnelProcessStatus::Running {
                (StopPhase::StoppingTunnel { ssh_pid }, StopAction::KillTunnel(ssh_pid))
            } else {
                (StopPhase::Removing, StopAction::RemoveStaleState { ssh_pid, status })
            }
        },
        (StopPhase::StoppingTunnel { .. }, StopEvent::Killed(outcome)) => match outcome {
            Ok(_) => (StopPhase::Removing, StopAction::RemoveState),
            Err(error) => (StopPhase::Finished, StopAction::Fail(error)),
        },
        (StopPhase::Removing, StopEvent::StateRemoved) => (StopPhase::Finished, StopAction::Done),
        (phase, _) => (phase, StopAction::LoadState),
    }
}

/// The action removes the saved state.
pub open spec fn removes_state(action: StopAction) -> bool {
    action is RemoveState || action is RemoveStaleState
}

/// The event reports a successful stop of a process.
pub open spec fn kill_succeeded(event: StopEvent) -> bool {
    match event {
        StopEvent::Killed(outcome) => outcome is Ok,
        _ => false,
    }
}

/// The event reports a failed stop of a process.
pub open spec fn kill_failed(event: StopEvent) -> bool {
    match event {
        StopEvent::Killed(outcome) => outcome is Err,
        _ => false,
    }
}

/// The event reports that the recorded SSH process is not the tunnel any
/// more.
pub open spec fn finds_tunnel_gone(event: StopEvent) -> bool {
    match event {
        StopEvent::TunnelChecked(status) => status != TunnelProcessStatus::Running,
        _ => false,
    }
}

/// Law: `resip off` removes the saved state only after the recorded SSH
/// process was stopped, or was found gone or foreign, and a failed stop
/// never removes it.
pub proof fn lemma_state_removed_after_stops(phase: StopPhase, event: StopEvent)
    requires
        stop_accepts(phase, event),
    ensures
        removes_state(stop_transition(phase, event).1) ==> ((phase is StoppingTunnel
            && kill_succeeded(event)) || (phase is CheckingTunnel && finds_tunnel_gone(event))),
        kill_failed(event) ==> stop_transition(
            phase,
            event,
        ).1 is Fail && stop_transition(phase, event).0 is Finished,
{
}

/// Law: `resip off` stops the supervisor before it looks at the SSH
/// process, stops only a live supervisor, and stops the SSH process only
/// when it is the recorded tunnel.
pub proof fn lemma_stop_order(phase: StopPhase, event: StopEvent)
    requires
        stop_accepts(phase, event),
    ensures
        stop_transition(phase, event).1 is KillSupervisor ==> (phase is CheckingSupervisor && event
            == StopEvent::SupervisorChecked(true)),
        stop_transition(phase, event).1 is KillTunnel ==> (phase is CheckingTunnel && event
            == StopEvent::TunnelChecked(TunnelProcessStatus::Running)),
        stop_transition(phase, event).1 is CheckTunnel ==> !(phase is CheckingTunnel
            || phase is StoppingTunnel || phase is Removing),
        stop_transition(phase, event).0 is CheckingTunnel ==> (phase is Loading
            || phase is CheckingSupervisor || phase is StoppingSupervisor),
{
}

/// Law: when the user agrees to restart a managed tunnel, `resip on`
/// stops it first; after the question it either stops the tunnel or ends,
/// and it looks for `ssh` only after the old tunnel was stopped, its stale
/// state was cleared, or no state was saved at all.
pub proof fn lemma_restart_stops_existing_first(
    force: bool,
    host: String,
    port: u16,
    phase: StartPhase,
    event: StartEvent,
)
    requires
        accepts_spec(phase, event),
    ensures
        phase is AwaitingAnswer && event == StartEvent::RestartAnswered(true) ==> (start_transition(
            force,
            host,
            port,
            phase,
            event,
        ).1 is StopExisting && start_transition(force, host, port, phase, event).0 is Stopping),
        phase is AwaitingAnswer ==> (start_transition(force, host, port, phase, event).0 is Stopping
            || start_transition(force, host, port, phase, event).0 is Finished),
        start_transition(force, host, port, phase, event).0 is CheckingSsh ==> ((phase is Stopping
            && event is Stopped) || (phase is RemovingStale && event is StaleRemoved) || (phase
            is LoadingExisting && event == StartEvent::StateLoaded(None))),
{
}

/// Law: when the recorded SSH process turns out not to be the running
/// tunnel, `resip off` reports the stale state with that process and its
/// status and removes the state; "not running" is reported only when no
/// state is saved, and `resip off` finishes normally only after removing the
/// state.
pub proof fn lemma_stale_state_is_removed(phase: StopPhase, event: StopEvent)
    requires
        stop_accepts(phase, event),
    ensures
        phase is CheckingTunnel && finds_tunnel_gone(event) ==> (stop_transition(phase, event).0
            is Removing && stop_transition(phase, event).1 == StopAction::RemoveStaleState {
            ssh_pid: phase->CheckingTunnel_ssh_pid,
            status: event->TunnelChecked_0,
        }),
        stop_transition(phase, event).1 is ReportNotRunning ==> (phase is Loading
            && event is NothingRecorded),
        stop_transition(phase, event).1 is Done ==> (phase is Removing && event is StateRemoved),
{
}

} // verus!

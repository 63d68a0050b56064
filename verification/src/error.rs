//! The errors that the library reports.
use vstd::prelude::*;

verus! {

/// Everything that can go wrong while managing the tunnel.
///
/// Variants that stem from a failed system operation carry that
/// operation's message in `detail`.
#[derive(Debug, Clone, PartialEq, Eq)]
pub enum ResipError {
    ConfigDirUnavailable,
    StateDirUnavailable,
    HomeDirUnavailable,
    InvalidSshPort,
    CreateDirectory { path: String, detail: String },
    ReadFile { path: String, detail: String },
    WriteFile { path: String, detail: String },
    RemoveFile { path: String, detail: String },
    ParseJson { path: String, detail: String },
    SerializeJson { detail: String },
    SerializeYaml { detail: String },
    SshNotFound,
    PortInUse { host: String, port: u16 },
    StartSsh { detail: String },
    SshExitedImmediately { reason: String },
    SshForwardNotReady { host: String, port: u16 },
    StartSupervisor { detail: String },
    SupervisorExitedImmediately,
    RunCommand { program: String, detail: String },
    CommandFailed { program: String },
    CurrentDir { detail: String },
    CurrentExe { detail: String },
    OpenDirectory { path: String, detail: String },
    FileManagerFailed { path: String },
    GeneratedButOpenFailed { detail: String },
    CreateHttpProxy { url: String, detail: String },
    BuildHttpClient { detail: String },
    ProxyTest { detail: String },
    FlushStdout { detail: String },
    ReadStdin { detail: String },
    UnsupportedAutostartPlatform,
    /// A step of a command received an event that it does not wait for.
    EventOutOfOrder { detail: String },
}

/// Result of a library operation.
pub type ResipResult<T> = Result<T, ResipError>;

} // verus!

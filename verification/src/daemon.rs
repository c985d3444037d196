//! How the daemon is launched, and how a failed launch is classified.
//!
//! The shell starts the daemon once and keeps no handle on it. This module
//! says what is to be started; the host program creates the process.

use vstd::prelude::*;
use crate::platform::{binary_path, daemon_path, Platform};

verus! {

/// What becomes of one standard stream of a child process.
#[derive(Clone, Copy, Debug, PartialEq, Eq, Structural)]
pub enum StreamMode {
    /// The stream is connected to the null sink.
    Discard,
    /// The child shares the stream of its parent.
    Inherit,
    /// The parent keeps a pipe to the child.
    Piped,
}

/// Everything the host needs to start the daemon.
#[derive(Clone, Debug, PartialEq, Eq)]
pub struct DaemonLaunchSpec {
    pub executable_path: String,
    pub argv: Vec<String>,
    pub stdin: StreamMode,
    pub stdout: StreamMode,
    pub stderr: StreamMode,
}

/// The mathematical value of a [`DaemonLaunchSpec`].
pub struct LaunchSpecView {
    pub executable_path: Seq<char>,
    pub argv: Seq<Seq<char>>,
    pub stdin: StreamMode,
    pub stdout: StreamMode,
    pub stderr: StreamMode,
}

impl View for DaemonLaunchSpec {
    type V = LaunchSpecView;

    open spec fn view(&self) -> LaunchSpecView {
        LaunchSpecView {
            executable_path: self.executable_path@,
            argv: Seq::new(self.argv@.len(), |i: int| self.argv@[i]@),
            stdin: self.stdin,
            stdout: self.stdout,
            stderr: self.stderr,
        }
    }
}

/// The arguments the daemon is always started with: the local port it binds
/// to and the name of its profile directory.
pub open spec fn daemon_argv() -> Seq<Seq<char>> {
    seq!["--port"@, "5040"@, "--profile"@, ".sumo"@]
}

/// The launch of the daemon on `platform`: the platform's executable, the
/// fixed arguments, and all three standard streams discarded.
pub open spec fn daemon_launch(platform: Platform) -> LaunchSpecView {
    LaunchSpecView {
        executable_path: daemon_path(platform),
        argv: daemon_argv(),
        stdin: StreamMode::Discard,
        stdout: StreamMode::Discard,
        stderr: StreamMode::Discard,
    }
}

/// Says how the daemon is started on `platform`.
pub fn launch_spec(platform: Platform) -> (spec: DaemonLaunchSpec)
    ensures
        spec@ == daemon_launch(platform),
{
    let mut argv: Vec<String> = Vec::new();
    argv.push("--port".to_owned());
    argv.push("5040".to_owned());
    argv.push("--profile".to_owned());
    argv.push(".sumo".to_owned());
    let spec = DaemonLaunchSpec {
        executable_path: binary_path(platform).to_owned(),
        argv,
        stdin: StreamMode::Discard,
        stdout: StreamMode::Discard,
        stderr: StreamMode::Discard,
    };
    assert(spec@.argv =~= daemon_argv());
    spec
}

/// Why the daemon could not be started.
#[derive(Clone, Copy, Debug, PartialEq, Eq, Structural)]
pub enum SpawnError {
    /// No file is at the executable's path.
    ExecutableMissing,
    /// The file is there and may not be run.
    NotExecutable,
    /// The operating system refused to create the process.
    OsRefused,
}

} // verus!

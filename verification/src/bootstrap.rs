//! The startup of the shell, as a state machine.
//!
//! Startup installs the application menu, then starts the daemon, then
//! registers the menu event router. Each of these is work of the host, so the
//! machine only decides: it hands out one action at a time and takes the
//! outcome back as an event. A failed step aborts startup for good; the shell
//! runs only after both the menu and the daemon are confirmed.

use vstd::prelude::*;
use crate::daemon::{daemon_launch, launch_spec, DaemonLaunchSpec, LaunchSpecView, SpawnError};
use crate::menu::{app_menu, build_menu, MenuNode, MenuTree};
use crate::platform::Platform;

verus! {

/// The host runtime rejected the application menu.
#[derive(Clone, Copy, Debug, PartialEq, Eq, Structural)]
pub struct MenuInstallError;

/// A failure that ends startup. There is no retry and no degraded mode.
#[derive(Clone, Copy, Debug, PartialEq, Eq, Structural)]
pub enum FatalError {
    MenuInstall(MenuInstallError),
    DaemonSpawn(SpawnError),
}

/// The message that tells the user why startup ended.
pub open spec fn diagnostic_text(error: FatalError) -> Seq<char> {
    match error {
        FatalError::MenuInstall(_) => "install menu: the host rejected the application menu"@,
        FatalError::DaemonSpawn(SpawnError::ExecutableMissing) =>
            "start daemon: the executable is missing"@,
        FatalError::DaemonSpawn(SpawnError::NotExecutable) =>
            "start daemon: the executable may not be run"@,
        FatalError::DaemonSpawn(SpawnError::OsRefused) =>
            "start daemon: the operating system refused to create the process"@,
    }
}

impl FatalError {
    /// The message to end the application with.
    pub fn diagnostic(&self) -> (message: &'static str)
        ensures
            message@ == diagnostic_text(*self),
    {
        match self {
            FatalError::MenuInstall(_) => "install menu: the host rejected the application menu",
            FatalError::DaemonSpawn(SpawnError::ExecutableMissing) =>
                "start daemon: the executable is missing",
            FatalError::DaemonSpawn(SpawnError::NotExecutable) =>
                "start daemon: the executable may not be run",
            FatalError::DaemonSpawn(SpawnError::OsRefused) =>
                "start daemon: the operating system refused to create the process",
        }
    }
}

/// Where startup stands.
#[derive(Clone, Copy, Debug, PartialEq, Eq, Structural)]
pub enum ShellState {
    /// The menu has been handed out and is not yet confirmed.
    AwaitingMenu,
    /// The menu is installed; the daemon's launch is not yet confirmed.
    AwaitingDaemon,
    /// Menu and daemon are both confirmed, and the router is registered.
    Running,
    /// Startup failed.
    Aborted(FatalError),
}

/// What the host reports back.
#[derive(Clone, Copy, Debug, PartialEq, Eq, Structural)]
pub enum BootEvent {
    MenuInstalled,
    MenuRejected(MenuInstallError),
    DaemonStarted,
    DaemonFailed(SpawnError),
}

/// What the host is asked to do next.
#[derive(Debug, PartialEq, Eq)]
pub enum BootAction {
    /// Install this tree as the native application menu.
    InstallMenu(MenuNode),
    /// Start the daemon as described, and keep no handle on it.
    SpawnDaemon(DaemonLaunchSpec),
    /// Register the menu event router and enter the main loop.
    RegisterRouter,
    /// End the application with this failure.
    Abort(FatalError),
    /// Nothing: the event did not answer the step in progress.
    Nothing,
}

/// The mathematical value of a [`BootAction`].
pub enum BootActionView {
    InstallMenu(MenuTree),
    SpawnDaemon(LaunchSpecView),
    RegisterRouter,
    Abort(FatalError),
    Nothing,
}

impl View for BootAction {
    type V = BootActionView;

    open spec fn view(&self) -> BootActionView {
        match self {
            BootAction::InstallMenu(menu) => BootActionView::InstallMenu(menu@),
            BootAction::SpawnDaemon(spec) => BootActionView::SpawnDaemon(spec@),
            BootAction::RegisterRouter => BootActionView::RegisterRouter,
            BootAction::Abort(error) => BootActionView::Abort(*error),
            BootAction::Nothing => BootActionView::Nothing,
        }
    }
}

/// The state that follows `state` on `event`. An event answers a step only
/// while that step is awaited; at any other time it changes nothing.
pub open spec fn next_state(state: ShellState, event: BootEvent) -> ShellState {
    match (state, event) {
        (ShellState::AwaitingMenu, BootEvent::MenuInstalled) => ShellState::AwaitingDaemon,
        (ShellState::AwaitingMenu, BootEvent::MenuRejected(e)) => ShellState::Aborted(
            FatalError::MenuInstall(e),
        ),
        (ShellState::AwaitingDaemon, BootEvent::DaemonStarted) => ShellState::Running,
        (ShellState::AwaitingDaemon, BootEvent::DaemonFailed(e)) => ShellState::Aborted(
            FatalError::DaemonSpawn(e),
        ),
        _ => state,
    }
}

/// The action that `event` calls for in `state`, on `platform`.
pub open spec fn action_on(platform: Platform, state: ShellState, event: BootEvent)
    -> BootActionView {
    match (state, event) {
        (ShellState::AwaitingMenu, BootEvent::MenuInstalled) => BootActionView::SpawnDaemon(
            daemon_launch(platform),
        ),
        (ShellState::AwaitingMenu, BootEvent::MenuRejected(e)) => BootActionView::Abort(
            FatalError::MenuInstall(e),
        ),
        (ShellState::AwaitingDaemon, BootEvent::DaemonStarted) => BootActionView::RegisterRouter,
        (ShellState::AwaitingDaemon, BootEvent::DaemonFailed(e)) => BootActionView::Abort(
            FatalError::DaemonSpawn(e),
        ),
        _ => BootActionView::Nothing,
    }
}

/// The state reached from `state` when `events` arrive in order.
pub open spec fn after(state: ShellState, events: Seq<BootEvent>) -> ShellState
    decreases events.len(),
{
    if events.len() == 0 {
        state
    } else {
        after(next_state(state, events[0]), events.drop_first())
    }
}

/// The state of a shell that began startup and has seen `events`.
pub open spec fn startup_after(events: Seq<BootEvent>) -> ShellState {
    after(ShellState::AwaitingMenu, events)
}

/// Startup is over in `state`: the shell runs, or it has failed.
pub open spec fn settled(state: ShellState) -> bool {
    state is Running || state is Aborted
}

/// Events that arrive one after the other act like their concatenation.
pub proof fn lemma_after_concat(state: ShellState, first: Seq<BootEvent>, rest: Seq<BootEvent>)
    ensures
        after(state, first + rest) == after(after(state, first), rest),
    decreases first.len(),
{
    if first.len() == 0 {
        assert(first + rest =~= rest);
    } else {
        assert((first + rest).drop_first() =~= first.drop_first() + rest);
        lemma_after_concat(next_state(state, first[0]), first.drop_first(), rest);
    }
}

/// Once startup is over, no event changes its outcome: a failed startup is
/// never revived, and a running shell is never taken back.
pub proof fn lemma_settled_is_final(state: ShellState, events: Seq<BootEvent>)
    requires
        settled(state),
    ensures
        after(state, events) == state,
    decreases events.len(),
{
    if events.len() > 0 {
        lemma_settled_is_final(state, events.drop_first());
    }
}

/// A failure seen at any point of startup is its outcome, whatever follows.
pub proof fn lemma_failure_is_fatal(events: Seq<BootEvent>, seen: int, error: FatalError)
    requires
        0 <= seen <= events.len(),
        startup_after(events.take(seen)) == ShellState::Aborted(error),
    ensures
        startup_after(events) == ShellState::Aborted(error),
{
    assert(events =~= events.take(seen) + events.skip(seen));
    lemma_after_concat(ShellState::AwaitingMenu, events.take(seen), events.skip(seen));
    lemma_settled_is_final(ShellState::Aborted(error), events.skip(seen));
}

proof fn lemma_daemon_confirmed(events: Seq<BootEvent>) -> (at: int)
    requires
        after(ShellState::AwaitingDaemon, events) == ShellState::Running,
    ensures
        0 <= at < events.len(),
        events[at] == BootEvent::DaemonStarted,
    decreases events.len(),
{
    if events[0] == BootEvent::DaemonStarted {
        0
    } else {
        let state = next_state(ShellState::AwaitingDaemon, events[0]);
        if state is Aborted {
            lemma_settled_is_final(state, events.drop_first());
        }
        lemma_daemon_confirmed(events.drop_first()) + 1
    }
}

/// The shell runs only after both steps are confirmed: among the events seen
/// there is the installation of the menu and, later, the start of the daemon.
/// No shell runs on one of the two alone.
pub proof fn lemma_running_needs_menu_and_daemon(events: Seq<BootEvent>) -> (at: (int, int))
    requires
        startup_after(events) == ShellState::Running,
    ensures
        0 <= at.0 < at.1 < events.len(),
        events[at.0] == BootEvent::MenuInstalled,
        events[at.1] == BootEvent::DaemonStarted,
    decreases events.len(),
{
    if events[0] == BootEvent::MenuInstalled {
        let daemon = lemma_daemon_confirmed(events.drop_first());
        (0, daemon + 1)
    } else {
        let state = next_state(ShellState::AwaitingMenu, events[0]);
        if state is Aborted {
            lemma_settled_is_final(state, events.drop_first());
        }
        let (menu, daemon) = lemma_running_needs_menu_and_daemon(events.drop_first());
        (menu + 1, daemon + 1)
    }
}

/// The startup of one shell process.
#[derive(Debug)]
pub struct Bootstrap {
    platform: Platform,
    state: ShellState,
}

impl Bootstrap {
    /// The platform the shell was started for.
    pub closed spec fn spec_platform(&self) -> Platform {
        self.platform
    }

    /// Where startup stands.
    pub closed spec fn spec_state(&self) -> ShellState {
        self.state
    }

    /// Begins startup on `platform`. The first action asks for the
    /// application menu to be installed.
    pub fn begin(platform: Platform) -> (started: (Bootstrap, BootAction))
        ensures
            started.0.spec_platform() == platform,
            started.0.spec_state() == ShellState::AwaitingMenu,
            started.1@ == BootActionView::InstallMenu(app_menu()),
    {
        let boot = Bootstrap { platform, state: ShellState::AwaitingMenu };
        (boot, BootAction::InstallMenu(build_menu()))
    }

    /// Takes the outcome of the last action and says what to do next.
    pub fn step(&mut self, event: BootEvent) -> (action: BootAction)
        ensures
            final(self).spec_platform() == old(self).spec_platform(),
            final(self).spec_state() == next_state(old(self).spec_state(), event),
            action@ == action_on(old(self).spec_platform(), old(self).spec_state(), event),
    {
        match (self.state, event) {
            (ShellState::AwaitingMenu, BootEvent::MenuInstalled) => {
                self.state = ShellState::AwaitingDaemon;
                BootAction::SpawnDaemon(launch_spec(self.platform))
            },
            (ShellState::AwaitingMenu, BootEvent::MenuRejected(e)) => {
                let error = FatalError::MenuInstall(e);
                self.state = ShellState::Aborted(error);
                BootAction::Abort(error)
            },
            (ShellState::AwaitingDaemon, BootEvent::DaemonStarted) => {
                self.state = ShellState::Running;
                BootAction::RegisterRouter
            },
            (ShellState::AwaitingDaemon, BootEvent::DaemonFailed(e)) => {
                let error = FatalError::DaemonSpawn(e);
                self.state = ShellState::Aborted(error);
                BootAction::Abort(error)
            },
            _ => BootAction::Nothing,
        }
    }

    /// The platform the shell was started for.
    #[verifier::when_used_as_spec(spec_platform)]
    pub fn platform(&self) -> (platform: Platform)
        ensures
            platform == self.spec_platform(),
    {
        self.platform
    }

    /// Where startup stands.
    #[verifier::when_used_as_spec(spec_state)]
    pub fn state(&self) -> (state: ShellState)
        ensures
            state == self.spec_state(),
    {
        self.state
    }

    /// Tells whether startup is complete.
    pub fn is_running(&self) -> (running: bool)
        ensures
            running == (self.spec_state() == ShellState::Running),
    {
        match self.state {
            ShellState::Running => true,
            _ => false,
        }
    }

    /// The failure that ended startup, if one did.
    pub fn failure(&self) -> (failure: Option<FatalError>)
        ensures
            failure == match self.spec_state() {
                ShellState::Aborted(error) => Some(error),
                _ => None,
            },
    {
        match self.state {
            ShellState::Aborted(error) => Some(error),
            _ => None,
        }
    }
}

} // verus!

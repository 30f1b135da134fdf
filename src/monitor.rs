//! The monitor's start-up sequence as a state machine: each stage names the
//! next action to perform, and the outcome of that action moves the stage on.
//! The actions themselves (forking, signals, descriptors) are performed by the
//! caller, which reports back how each went.
use vstd::prelude::*;
use crate::config::{default_pidfile_spec, Config};
use crate::container_logging::opt_view;

verus! {

/// An extension point that is not supported yet.
#[derive(Clone, Copy, Debug, PartialEq, Eq, Structural)]
pub enum Feature {
    /// Pseudo-terminal setup through a console socket.
    Terminal,
    /// Relaying of sd-notify messages.
    NotifySocket,
}

/// Why the start-up sequence stopped.
#[derive(Clone, Copy, Debug, PartialEq, Eq, Structural)]
pub enum RunError {
    /// The logger could not be initialized.
    Logging,
    /// The configuration or the log destinations were refused.
    Config,
    /// The signal dispositions could not be installed.
    Signals,
    /// The start pipe could not be located, secured or read.
    StartPipe,
    /// Forking failed.
    Fork,
    /// The pidfile could not be written.
    Pidfile,
    /// The subreaper flag could not be set.
    Subreaper,
    /// The standard streams could not be redirected.
    Stdio,
    /// A new session could not be created.
    Session,
    /// The I/O channels could not be created.
    Channels,
    /// The configuration asks for a feature that is not supported yet.
    NotImplemented(Feature),
}

/// Where the start-up sequence stands.
#[derive(Clone, Copy, Debug, PartialEq, Eq, Structural)]
pub enum Stage {
    Start,
    LoggingConfigured,
    ConfigChecked,
    PrivilegeAdjusted,
    SignalsArmed,
    StartPipeAwaited,
    /// The process that forked, holding its child's pid.
    ParentForked(i32),
    /// The process that forked, about to exit.
    ParentExiting,
    Detached,
    SubreaperFlagged,
    StdioRedirected,
    SessionCreated,
    Ready,
    Failed(RunError),
}

/// What the caller is to do next.
#[derive(Clone, Copy, Debug, PartialEq, Eq, Structural)]
pub enum Action {
    /// Initialize the logger to the configured level.
    InitLogging,
    /// Validate the configuration and resolve the logging drivers.
    CheckConfig,
    /// Write the OOM score hint; failure is not fatal.
    AdjustOom,
    /// Ignore broken pipes and exit with failure on terminate.
    ArmSignals,
    /// Wait on the start pipe, if one was given, and close it afterwards if `close_after`.
    AwaitStartPipe { close_after: bool },
    /// Fork once, reporting which side returned.
    Fork,
    /// Write the child's pid to the pidfile.
    WritePidfile { child: i32 },
    /// Exit with success status.
    ExitSuccess,
    /// Register the exit-time reap of children and become the subreaper.
    SetSubreaper,
    /// Point the standard streams at the null device.
    RedirectStdio,
    /// Become a session leader.
    CreateSession,
    /// Create the I/O channel pairs (stdin only if `stdin`), and locate the
    /// sync pipe and, if `attach`, the attach pipe.
    ProvisionIo { stdin: bool, attach: bool },
    /// Nothing left to do.
    Finish,
    /// Stop with an error.
    Abort(RunError),
}

/// How the last action went.
#[derive(Clone, Copy, Debug, PartialEq, Eq, Structural)]
pub enum Outcome {
    Done,
    Failed,
    /// Returned from a fork in the parent, with the child's pid.
    ForkedParent(i32),
    /// Returned from a fork in the child.
    ForkedChild,
}

/// Whether the monitor detaches from its launcher by forking.
pub open spec fn daemonize(c: Config) -> bool {
    !c.sync
}

/// The action that a stage calls for.
pub open spec fn action_spec(s: Stage, c: Config) -> Action {
    match s {
        Stage::Start => Action::InitLogging,
        Stage::LoggingConfigured => Action::CheckConfig,
        Stage::ConfigChecked => Action::AdjustOom,
        Stage::PrivilegeAdjusted => Action::ArmSignals,
        Stage::SignalsArmed => Action::AwaitStartPipe { close_after: !c.exec_attach },
        Stage::StartPipeAwaited => if daemonize(c) {
            Action::Fork
        } else {
            Action::SetSubreaper
        },
        Stage::ParentForked(p) => if c.pidfile is Some {
            Action::WritePidfile { child: p }
        } else {
            Action::ExitSuccess
        },
        Stage::ParentExiting => Action::ExitSuccess,
        Stage::Detached => Action::SetSubreaper,
        Stage::SubreaperFlagged => if c.sdnotify_socket is Some {
            Action::Abort(RunError::NotImplemented(Feature::NotifySocket))
        } else {
            Action::RedirectStdio
        },
        Stage::StdioRedirected => Action::CreateSession,
        Stage::SessionCreated => if c.terminal {
            Action::Abort(RunError::NotImplemented(Feature::Terminal))
        } else {
            Action::ProvisionIo { stdin: c.stdin, attach: c.exec_attach }
        },
        Stage::Ready => Action::Finish,
        Stage::Failed(e) => Action::Abort(e),
    }
}

/// The stage that success moves to, or the error that failure gives.
pub open spec fn on_done(ok: bool, next: Stage, e: RunError) -> Stage {
    if ok {
        next
    } else {
        Stage::Failed(e)
    }
}

/// The stage that follows `s` once its action had the outcome `o`.
pub open spec fn advance_spec(s: Stage, c: Config, o: Outcome) -> Stage {
    let ok = o is Done;
    match s {
        Stage::Start => on_done(ok, Stage::LoggingConfigured, RunError::Logging),
        Stage::LoggingConfigured => on_done(ok, Stage::ConfigChecked, RunError::Config),
        Stage::ConfigChecked => Stage::PrivilegeAdjusted,
        Stage::PrivilegeAdjusted => on_done(ok, Stage::SignalsArmed, RunError::Signals),
        Stage::SignalsArmed => on_done(ok, Stage::StartPipeAwaited, RunError::StartPipe),
        Stage::StartPipeAwaited => if daemonize(c) {
            match o {
                Outcome::ForkedParent(p) => Stage::ParentForked(p),
                Outcome::ForkedChild => Stage::Detached,
                _ => Stage::Failed(RunError::Fork),
            }
        } else {
            on_done(ok, Stage::SubreaperFlagged, RunError::Subreaper)
        },
        Stage::ParentForked(_) => if c.pidfile is Some {
            on_done(ok, Stage::ParentExiting, RunError::Pidfile)
        } else {
            Stage::ParentExiting
        },
        Stage::ParentExiting => Stage::ParentExiting,
        Stage::Detached => on_done(ok, Stage::SubreaperFlagged, RunError::Subreaper),
        Stage::SubreaperFlagged => if c.sdnotify_socket is Some {
            Stage::Failed(RunError::NotImplemented(Feature::NotifySocket))
        } else {
            on_done(ok, Stage::StdioRedirected, RunError::Stdio)
        },
        Stage::StdioRedirected => on_done(ok, Stage::SessionCreated, RunError::Session),
        Stage::SessionCreated => if c.terminal {
            Stage::Failed(RunError::NotImplemented(Feature::Terminal))
        } else {
            on_done(ok, Stage::Ready, RunError::Channels)
        },
        Stage::Ready => Stage::Ready,
        Stage::Failed(e) => Stage::Failed(e),
    }
}

/// Conmon is the main structure to run the OCI container monitor.
pub struct Conmon {
    config: Config,
    stage: Stage,
}

impl Conmon {
    pub closed spec fn spec_config(&self) -> Config {
        self.config
    }

    pub closed spec fn spec_stage(&self) -> Stage {
        self.stage
    }

    /// A monitor for `config`, at the start of its sequence.
    pub fn new(config: Config) -> (r: Conmon)
        ensures
            r.spec_config() == config,
            r.spec_stage() == Stage::Start,
    {
        Conmon { config, stage: Stage::Start }
    }

    /// The main configuration.
    pub fn config(&self) -> (r: &Config)
        ensures
            *r == self.spec_config(),
    {
        &self.config
    }

    /// Where the sequence stands.
    pub fn stage(&self) -> (r: Stage)
        ensures
            r == self.spec_stage(),
    {
        self.stage
    }

    /// Validate the configuration in place; see `Config::validate`.
    pub fn validate_config(&mut self, runtime_exists: bool, cwd: Option<&str>) -> (r: Result<(), crate::config::ConfigError>)
        ensures
            final(self).spec_stage() == old(self).spec_stage(),
            old(self).spec_config().validate_error(runtime_exists, cwd is Some) matches Option::Some(e)
                ==> r == Err::<(), crate::config::ConfigError>(e) && final(self).spec_config() == old(self).spec_config(),
            old(self).spec_config().validate_error(runtime_exists, cwd is Some) is None ==> r is Ok,
            r is Ok ==> opt_view(final(self).spec_config().bundle) == (if old(self).spec_config().bundle is None
                && !old(self).spec_config().exec_mode {
                Option::Some(cwd.unwrap()@)
            } else {
                opt_view(old(self).spec_config().bundle)
            }),
            r is Ok ==> opt_view(final(self).spec_config().container_pidfile) == (if old(self).spec_config().container_pidfile is None {
                Option::Some(default_pidfile_spec(cwd.unwrap()@, old(self).spec_config().cid@))
            } else {
                opt_view(old(self).spec_config().container_pidfile)
            }),
            r is Ok ==> (Config {
                bundle: final(self).spec_config().bundle,
                container_pidfile: final(self).spec_config().container_pidfile,
                ..old(self).spec_config()
            }) == final(self).spec_config(),
    {
        self.config.validate(runtime_exists, cwd)
    }

    /// The action that the current stage calls for.
    pub fn next_action(&self) -> (r: Action)
        ensures
            r == action_spec(self.spec_stage(), self.spec_config()),
    {
        let c = &self.config;
        match self.stage {
            Stage::Start => Action::InitLogging,
            Stage::LoggingConfigured => Action::CheckConfig,
            Stage::ConfigChecked => Action::AdjustOom,
            Stage::PrivilegeAdjusted => Action::ArmSignals,
            Stage::SignalsArmed => Action::AwaitStartPipe { close_after: crate::pipes::close_start_pipe(c.exec_attach) },
            Stage::StartPipeAwaited => if !c.sync {
                Action::Fork
            } else {
                Action::SetSubreaper
            },
            Stage::ParentForked(p) => if c.pidfile.is_some() {
                Action::WritePidfile { child: p }
            } else {
                Action::ExitSuccess
            },
            Stage::ParentExiting => Action::ExitSuccess,
            Stage::Detached => Action::SetSubreaper,
            Stage::SubreaperFlagged => if c.sdnotify_socket.is_some() {
                Action::Abort(RunError::NotImplemented(Feature::NotifySocket))
            } else {
                Action::RedirectStdio
            },
            Stage::StdioRedirected => Action::CreateSession,
            Stage::SessionCreated => if c.terminal {
                Action::Abort(RunError::NotImplemented(Feature::Terminal))
            } else {
                Action::ProvisionIo { stdin: c.stdin, attach: c.exec_attach }
            },
            Stage::Ready => Action::Finish,
            Stage::Failed(e) => Action::Abort(e),
        }
    }

    /// Move the sequence on by the outcome of the last action.
    pub fn advance(&mut self, o: Outcome)
        ensures
            final(self).spec_config() == old(self).spec_config(),
            final(self).spec_stage() == advance_spec(old(self).spec_stage(), old(self).spec_config(), o),
    {
        let ok = match o {
            Outcome::Done => true,
            _ => false,
        };
        let next = match self.stage {
            Stage::Start => done_or(ok, Stage::LoggingConfigured, RunError::Logging),
            Stage::LoggingConfigured => done_or(ok, Stage::ConfigChecked, RunError::Config),
            Stage::ConfigChecked => Stage::PrivilegeAdjusted,
            Stage::PrivilegeAdjusted => done_or(ok, Stage::SignalsArmed, RunError::Signals),
            Stage::SignalsArmed => done_or(ok, Stage::StartPipeAwaited, RunError::StartPipe),
            Stage::StartPipeAwaited => if !self.config.sync {
                match o {
                    Outcome::ForkedParent(p) => Stage::ParentForked(p),
                    Outcome::ForkedChild => Stage::Detached,
                    _ => Stage::Failed(RunError::Fork),
                }
            } else {
                done_or(ok, Stage::SubreaperFlagged, RunError::Subreaper)
            },
            Stage::ParentForked(_) => if self.config.pidfile.is_some() {
                done_or(ok, Stage::ParentExiting, RunError::Pidfile)
            } else {
                Stage::ParentExiting
            },
            Stage::ParentExiting => Stage::ParentExiting,
            Stage::Detached => done_or(ok, Stage::SubreaperFlagged, RunError::Subreaper),
            Stage::SubreaperFlagged => if self.config.sdnotify_socket.is_some() {
                Stage::Failed(RunError::NotImplemented(Feature::NotifySocket))
            } else {
                done_or(ok, Stage::StdioRedirected, RunError::Stdio)
            },
            Stage::StdioRedirected => done_or(ok, Stage::SessionCreated, RunError::Session),
            Stage::SessionCreated => if self.config.terminal {
                Stage::Failed(RunError::NotImplemented(Feature::Terminal))
            } else {
                done_or(ok, Stage::Ready, RunError::Channels)
            },
            Stage::Ready => Stage::Ready,
            Stage::Failed(e) => Stage::Failed(e),
        };
        self.stage = next;
    }
}

/// The stages of the process that returned from the fork as its parent.
pub open spec fn parent_side(s: Stage) -> bool {
    s is ParentForked || s is ParentExiting || s == Stage::Failed(RunError::Pidfile)
}

/// The stages from which the monitor is its own subreaper.
pub open spec fn past_subreaper(s: Stage) -> bool {
    s is SubreaperFlagged || s is StdioRedirected || s is SessionCreated || s is Ready
}

/// Whether an action belongs to the setup that follows detaching.
pub open spec fn setup_action(a: Action) -> bool {
    a is SetSubreaper || a is RedirectStdio || a is CreateSession || a is ProvisionIo
}

/// In daemonize mode the process that returns from the fork as parent writes
/// the child's pid to the pidfile when one is configured, then exits with
/// success; it never goes on into the subreaper and session setup.
pub proof fn law_parent_exits(s: Stage, c: Config, o: Outcome, child: i32)
    requires
        daemonize(c),
    ensures
        advance_spec(Stage::StartPipeAwaited, c, Outcome::ForkedParent(child)) == Stage::ParentForked(child),
        action_spec(Stage::ParentForked(child), c) == (if c.pidfile is Some {
            Action::WritePidfile { child }
        } else {
            Action::ExitSuccess
        }),
        c.pidfile is Some ==> advance_spec(Stage::ParentForked(child), c, Outcome::Done) == Stage::ParentExiting,
        action_spec(Stage::ParentExiting, c) == Action::ExitSuccess,
        parent_side(s) ==> parent_side(advance_spec(s, c, o)),
        parent_side(s) ==> !setup_action(action_spec(s, c)),
{
}

/// In keep-as-child mode nothing forks and no pidfile is written: the
/// process goes on from the start pipe straight into the subreaper setup,
/// and, unless a notify socket is configured (an unsupported extension that
/// stops the sequence there), on to the stdio redirect and the session.
pub proof fn law_keep_as_child(s: Stage, c: Config, o: Outcome)
    requires
        !daemonize(c),
    ensures
        action_spec(Stage::StartPipeAwaited, c) == Action::SetSubreaper,
        advance_spec(Stage::StartPipeAwaited, c, Outcome::Done) == Stage::SubreaperFlagged,
        !(s is ParentForked) ==> !(advance_spec(s, c, o) is ParentForked),
        !(s is ParentForked) ==> !(action_spec(s, c) is WritePidfile),
        !(action_spec(s, c) is Fork),
        c.sdnotify_socket is None ==> action_spec(Stage::SubreaperFlagged, c) == Action::RedirectStdio,
        c.sdnotify_socket is None ==> advance_spec(Stage::SubreaperFlagged, c, Outcome::Done) == Stage::StdioRedirected,
        action_spec(Stage::StdioRedirected, c) == Action::CreateSession,
        advance_spec(Stage::StdioRedirected, c, Outcome::Done) == Stage::SessionCreated,
{
}

/// The order of the setup steps: the fork comes after the signals are armed,
/// the subreaper flag is set before anything past it (in particular before
/// the I/O channels are handed out for spawning), and the standard streams
/// are redirected before the session is created.
pub proof fn law_setup_order(s: Stage, c: Config, o: Outcome)
    ensures
        action_spec(s, c) is Fork ==> s is StartPipeAwaited,
        advance_spec(s, c, o) is StartPipeAwaited && !(s is StartPipeAwaited) ==> s is SignalsArmed && o is Done,
        advance_spec(s, c, o) is SignalsArmed && !(s is SignalsArmed) ==> action_spec(s, c) is ArmSignals && o is Done,
        !past_subreaper(s) && past_subreaper(advance_spec(s, c, o)) ==> action_spec(s, c) is SetSubreaper && o is Done,
        action_spec(s, c) is ProvisionIo ==> past_subreaper(s),
        advance_spec(s, c, o) is SessionCreated && !(s is SessionCreated) ==> action_spec(s, c) is CreateSession && s is StdioRedirected,
        action_spec(s, c) is CreateSession ==> s is StdioRedirected,
{
}

/// `next` on success, else the failure `e`.
fn done_or(ok: bool, next: Stage, e: RunError) -> (r: Stage)
    ensures
        r == on_done(ok, next, e),
{
    if ok {
        next
    } else {
        Stage::Failed(e)
    }
}

} // verus!

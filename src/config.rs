//! Configuration of the monitor and its integrity checks.
use vstd::prelude::*;
use vstd::string::*;
use crate::container_logging::opt_view;

verus! {

/// How much the monitor logs about itself.
#[derive(Clone, Copy, Debug, PartialEq, Eq, Structural)]
pub enum LogLevel {
    Off,
    Error,
    Warn,
    Info,
    Debug,
    Trace,
}

/// Why a configuration was refused.
#[derive(Clone, Copy, Debug, PartialEq, Eq, Structural)]
pub enum ConfigError {
    /// Attaching was asked for with the legacy exec API.
    AttachNeedsNewApi,
    /// No container UUID was given where one is needed.
    MissingCuuid,
    /// The runtime path does not exist.
    RuntimeMissing,
    /// The current directory could not be determined.
    NoCurrentDir,
}

/// An OCI container runtime monitor's configuration. Paths are held as strings.
#[derive(Clone, Debug, PartialEq, Eq)]
pub struct Config {
    /// The logging level of the application.
    pub log_level: LogLevel,
    /// API version to use.
    pub api_version: u8,
    /// Location of the OCI Bundle path.
    pub bundle: Option<String>,
    /// Identification of Container.
    pub cid: String,
    /// PID file for the initial pid inside of container.
    pub conmon_pidfile: Option<String>,
    /// PID file for the conmon process.
    pub container_pidfile: Option<String>,
    /// Container UUID.
    pub cuuid: Option<String>,
    /// Exec a command into a running container.
    pub exec_mode: bool,
    /// Attach to an exec session.
    pub exec_attach: bool,
    /// Path to the process spec for execution.
    pub exec_process_spec: Option<String>,
    /// Program to execute when the container terminates its execution.
    pub exit_command: Option<String>,
    /// Additional args to pass to the exit command.
    pub exit_command_arg: Vec<String>,
    /// Delay before invoking the exit command (in seconds).
    pub exit_delay: u32,
    /// Directory where exit files are written.
    pub exit_dir: Option<String>,
    /// Leave stdin open when attached client disconnects.
    pub leave_stdin_open: bool,
    /// Log destinations, each `[DRIVER:]PATH`.
    pub log_path: Vec<String>,
    /// Maximum size of log file.
    pub log_size_max: i64,
    /// Additional tag to use for logging.
    pub log_tag: Option<String>,
    /// Container name.
    pub name: Option<String>,
    /// Do not create a new session keyring for the container.
    pub no_new_keyring: bool,
    /// Do not use `pivot_root`.
    pub no_pivot: bool,
    /// Do not manually call sync on logs after container shutdown.
    pub no_sync_log: bool,
    /// Persistent directory for a container.
    pub persist_dir: Option<String>,
    /// PID file written with the detached monitor's pid (deprecated).
    pub pidfile: Option<String>,
    /// Replace listen pid if set for oci-runtime pid.
    pub replace_listen_pid: bool,
    /// Restore a container from a checkpoint.
    pub restore: Option<String>,
    /// Additional args to pass to the restore command.
    pub restore_arg: Vec<String>,
    /// Path of the OCI runtime.
    pub runtime: String,
    /// Additional args to pass to the runtime.
    pub runtime_arg: Vec<String>,
    /// Additional opts to pass to the restore or exec command.
    pub runtime_opt: Vec<String>,
    /// Host's sd-notify socket to relay messages to.
    pub sdnotify_socket: Option<String>,
    /// Location of container attach sockets.
    pub socket_dir_path: String,
    /// Open up a pipe to pass stdin to the container.
    pub stdin: bool,
    /// Keep the main monitor process as its child by only forking once.
    pub sync: bool,
    /// Log to syslog.
    pub syslog: bool,
    /// Enable systemd cgroup manager.
    pub systemd_cgroup: bool,
    /// Allocate a pseudo-TTY.
    pub terminal: bool,
    /// Kill container after specified timeout in seconds.
    pub timeout: u32,
    /// Don't truncate the path to the attach socket.
    pub full_attach: bool,
    /// Socket where the seccomp notification fd is received.
    pub seccomp_notify_socket: Option<String>,
    /// Plugins to use for managing the seccomp notifications.
    pub seccomp_notify_plugins: Option<String>,
}

/// `name` placed in the directory `dir`.
pub open spec fn join_spec(dir: Seq<char>, name: Seq<char>) -> Seq<char> {
    if dir.len() == 0 {
        name
    } else if dir.last() == '/' {
        dir + name
    } else {
        dir + seq!['/'] + name
    }
}

/// The container pidfile used when none is configured.
pub open spec fn default_pidfile_spec(cwd: Seq<char>, cid: Seq<char>) -> Seq<char> {
    join_spec(cwd, "pidfile-"@ + cid)
}

/// `name` placed in the directory `dir`.
pub fn join_path(dir: &str, name: &str) -> (r: String)
    ensures
        r@ == join_spec(dir@, name@),
{
    let n = dir.unicode_len();
    if n == 0 {
        String::from_str(name)
    } else if dir.get_char(n - 1) == '/' {
        String::from_str(dir).concat(name)
    } else {
        proof {
            reveal_strlit("/");
        }
        String::from_str(dir).concat("/").concat(name)
    }
}

/// The container pidfile used when none is configured: `pidfile-<cid>` in `cwd`.
pub fn default_pidfile(cwd: &str, cid: &str) -> (r: String)
    ensures
        r@ == default_pidfile_spec(cwd@, cid@),
{
    let file = String::from_str("pidfile-").concat(cid);
    join_path(cwd, file.as_str())
}

impl Config {
    /// The error a configuration is refused with, if any, given whether the
    /// runtime path exists and whether the current directory is known.
    pub open spec fn validate_error(&self, runtime_exists: bool, has_cwd: bool) -> Option<ConfigError> {
        if self.api_version < 1 && self.exec_attach {
            Option::Some(ConfigError::AttachNeedsNewApi)
        } else if self.cuuid is None && (!self.exec_mode || self.api_version >= 1) {
            Option::Some(ConfigError::MissingCuuid)
        } else if !runtime_exists {
            Option::Some(ConfigError::RuntimeMissing)
        } else if !has_cwd {
            Option::Some(ConfigError::NoCurrentDir)
        } else {
            Option::None
        }
    }

    /// Fill in the bundle, outside exec sessions, and the container pidfile
    /// where they are missing, from the current directory `cwd`.
    fn apply_defaults(&mut self, cwd: &str)
        ensures
            opt_view(final(self).bundle) == (if old(self).bundle is None && !old(self).exec_mode {
                Option::Some(cwd@)
            } else {
                opt_view(old(self).bundle)
            }),
            opt_view(final(self).container_pidfile) == (if old(self).container_pidfile is None {
                Option::Some(default_pidfile_spec(cwd@, old(self).cid@))
            } else {
                opt_view(old(self).container_pidfile)
            }),
            (Config { bundle: final(self).bundle, container_pidfile: final(self).container_pidfile, ..*old(self) }) == *final(self),
    {
        // An exec session sets up the attach socket from `bundle`; the legacy
        // exec does not need it, so the default only applies outside exec.
        if self.bundle.is_none() && !self.exec_mode {
            self.bundle = Option::Some(String::from_str(cwd));
        }
        if self.container_pidfile.is_none() {
            self.container_pidfile = Option::Some(default_pidfile(cwd, self.cid.as_str()));
        }
    }

    /// Validate the configuration integrity and fill in the bundle and the
    /// container pidfile where they are missing. `runtime_exists` tells whether
    /// the runtime path exists; `cwd` is the current directory, if known.
    pub fn validate(&mut self, runtime_exists: bool, cwd: Option<&str>) -> (r: Result<(), ConfigError>)
        ensures
            old(self).validate_error(runtime_exists, cwd is Some) matches Option::Some(e) ==> r == Err::<(), ConfigError>(e) && *final(self) == *old(self),
            old(self).validate_error(runtime_exists, cwd is Some) is None ==> r is Ok,
            r is Ok ==> opt_view(final(self).bundle) == (if old(self).bundle is None && !old(self).exec_mode {
                Option::Some(cwd.unwrap()@)
            } else {
                opt_view(old(self).bundle)
            }),
            r is Ok ==> opt_view(final(self).container_pidfile) == (if old(self).container_pidfile is None {
                Option::Some(default_pidfile_spec(cwd.unwrap()@, old(self).cid@))
            } else {
                opt_view(old(self).container_pidfile)
            }),
            r is Ok ==> (Config { bundle: final(self).bundle, container_pidfile: final(self).container_pidfile, ..*old(self) }) == *final(self),
    {
        if self.api_version < 1 && self.exec_attach {
            return Err(ConfigError::AttachNeedsNewApi);
        }
        // The old exec API did not require a container UUID.
        if self.cuuid.is_none() && (!self.exec_mode || self.api_version >= 1) {
            return Err(ConfigError::MissingCuuid);
        }
        if !runtime_exists {
            return Err(ConfigError::RuntimeMissing);
        }
        match cwd {
            Option::Some(c) => {
                self.apply_defaults(c);
                Ok(())
            },
            Option::None => Err(ConfigError::NoCurrentDir),
        }
    }
}

} // verus!

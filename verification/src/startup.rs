//! The fixed part of the shell's startup: how logging is configured, which
//! plugins are registered and in what order, and whether the developer panel is
//! opened once the UI is set up.

use vstd::prelude::*;

verus! {

/// Verbosity of the logging service, from silent to most verbose.
#[derive(Clone, Copy, Debug, PartialEq, Eq)]
pub enum LogLevel {
    Off,
    Error,
    Warn,
    Info,
    Debug,
    Trace,
}

/// A place log records are written to.
#[derive(Clone, Copy, Debug, PartialEq, Eq)]
pub enum LogTarget {
    /// The log directory the platform assigns to the application.
    LogDir,
    /// The standard error stream.
    Stderr,
}

/// A service plugin of the UI runtime.
#[derive(Clone, Copy, Debug, PartialEq, Eq)]
pub enum Plugin {
    /// Logging.
    Log,
    /// File-system bridge.
    Fs,
    /// Native dialogs.
    Dialog,
    /// Command-line argument parsing.
    Cli,
}

/// What the shell sets up before it hands control to the UI runtime.
#[derive(Clone, Debug, PartialEq, Eq)]
pub struct StartupPlan {
    /// Verbosity of the logging service.
    pub log_level: LogLevel,
    /// Where log records are written.
    pub log_targets: Vec<LogTarget>,
    /// The plugins to register, in registration order.
    pub plugins: Vec<Plugin>,
    /// Whether to open the developer panel on the main window after setup.
    pub open_devtools: bool,
}

/// The log targets of every start: the log directory and standard error.
pub open spec fn log_targets() -> Seq<LogTarget> {
    seq![LogTarget::LogDir, LogTarget::Stderr]
}

/// The registration order of the plugins: logging, file-system bridge, native
/// dialogs, command-line parsing.
pub open spec fn plugin_order() -> Seq<Plugin> {
    seq![Plugin::Log, Plugin::Fs, Plugin::Dialog, Plugin::Cli]
}

/// Plans the startup. Logging is at debug level to the log directory and
/// standard error, the plugins come in their fixed order, and the developer
/// panel is opened in debug builds only.
pub fn startup_plan(debug_build: bool) -> (plan: StartupPlan)
    ensures
        plan.log_level == LogLevel::Debug,
        plan.log_targets@ == log_targets(),
        plan.plugins@ == plugin_order(),
        plan.open_devtools == debug_build,
{
    let mut log_targets: Vec<LogTarget> = Vec::new();
    log_targets.push(LogTarget::LogDir);
    log_targets.push(LogTarget::Stderr);
    let mut plugins: Vec<Plugin> = Vec::new();
    plugins.push(Plugin::Log);
    plugins.push(Plugin::Fs);
    plugins.push(Plugin::Dialog);
    plugins.push(Plugin::Cli);
    StartupPlan { log_level: LogLevel::Debug, log_targets, plugins, open_devtools: debug_build }
}

} // verus!

use vstd::prelude::*;

verus! {

/// The build profile, which selects the logging configuration.
#[derive(Clone, Copy, Debug, PartialEq, Eq, Structural)]
pub enum BuildProfile {
    Debug,
    Release,
}

/// The least severe level of log record that is kept.
#[derive(Clone, Copy, Debug, PartialEq, Eq, Structural)]
pub enum LogLevel {
    Off,
    Error,
    Warn,
    Info,
    Debug,
    Trace,
}

/// A destination of log records.
#[derive(Clone, Debug)]
pub enum LogTarget {
    /// The standard output stream.
    Stdout,
    /// A file in the platform's log directory; `None` takes the
    /// application's default file name.
    LogDir { file_name: Option<String> },
    /// The console of the application's own web view.
    Webview,
}

/// The logging set-up of one build profile.
#[derive(Clone, Debug)]
pub struct LogConfig {
    pub level: LogLevel,
    pub targets: Vec<LogTarget>,
}

/// A capability attached to the application at start-up.
#[derive(Clone, Copy, Debug, PartialEq, Eq, Structural)]
pub enum Plugin {
    /// Shell command execution.
    Shell,
    /// Logging, configured by [`log_config`].
    Log,
    /// Operating-system metadata.
    Os,
    /// Persistent key-value store.
    Store,
    /// Process control.
    Process,
    /// Global keyboard shortcuts, registered once the application is set up
    /// and only on desktop platforms.
    GlobalShortcut,
}

/// The log file of debug builds.
pub open spec fn debug_log_file() -> Seq<char> {
    "framer_debug"@
}

/// The log file of release builds.
pub open spec fn release_log_file() -> Seq<char> {
    "framer_prod"@
}

/// Whether a target is a file in the log directory with the given name.
pub open spec fn is_log_file(t: LogTarget, name: Seq<char>) -> bool {
    t matches LogTarget::LogDir { file_name: Some(n) } && n@ == name
}

/// The logging policy: debug builds keep informational records and above
/// and send them to standard output, to a named log file and to the web
/// view console; release builds keep warnings and above, in a named log file
/// only.
pub open spec fn log_config_spec(profile: BuildProfile, c: LogConfig) -> bool {
    match profile {
        BuildProfile::Debug => {
            &&& c.level == LogLevel::Info
            &&& c.targets@.len() == 3
            &&& c.targets@[0] is Stdout
            &&& is_log_file(c.targets@[1], debug_log_file())
            &&& c.targets@[2] is Webview
        },
        BuildProfile::Release => {
            &&& c.level == LogLevel::Warn
            &&& c.targets@.len() == 1
            &&& is_log_file(c.targets@[0], release_log_file())
        },
    }
}

/// The logging configuration of a build profile.
pub fn log_config(profile: BuildProfile) -> (c: LogConfig)
    ensures
        log_config_spec(profile, c),
{
    match profile {
        BuildProfile::Debug => {
            let mut targets: Vec<LogTarget> = Vec::new();
            targets.push(LogTarget::Stdout);
            targets.push(LogTarget::LogDir { file_name: Some("framer_debug".to_owned()) });
            targets.push(LogTarget::Webview);
            LogConfig { level: LogLevel::Info, targets }
        },
        BuildProfile::Release => {
            let mut targets: Vec<LogTarget> = Vec::new();
            targets.push(LogTarget::LogDir { file_name: Some("framer_prod".to_owned()) });
            LogConfig { level: LogLevel::Warn, targets }
        },
    }
}

/// The plugins attached at start-up, in the order of their registration.
/// Both build profiles attach the same set; only the logging differs.
pub open spec fn startup_plugins_spec() -> Seq<Plugin> {
    seq![
        Plugin::Shell,
        Plugin::Log,
        Plugin::Os,
        Plugin::Store,
        Plugin::Process,
        Plugin::GlobalShortcut,
    ]
}

/// The plugins to attach at start-up, in order.
pub fn startup_plugins() -> (r: Vec<Plugin>)
    ensures
        r@ == startup_plugins_spec(),
{
    let r: Vec<Plugin> = vec![
        Plugin::Shell,
        Plugin::Log,
        Plugin::Os,
        Plugin::Store,
        Plugin::Process,
        Plugin::GlobalShortcut,
    ];
    assert(r@ =~= startup_plugins_spec());
    r
}

} // verus!

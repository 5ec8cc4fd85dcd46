//! The logging configuration the application starts with.
//!
//! The configuration is plain data: a verbosity and the sinks that records
//! are written to, in the order they are handed to the logger. Turning it
//! into a running logger is left to the caller.

use vstd::prelude::*;

verus! {

/// How much is logged. Each level lets through its own records and those of
/// every level before it; `Off` lets nothing through.
#[derive(Clone, Copy, Debug, PartialEq, Eq, Structural)]
pub enum Verbosity {
    Off,
    Error,
    Warn,
    Info,
    Debug,
    Trace,
}

/// A sink for log records.
#[derive(Debug, PartialEq, Eq)]
pub enum LogTarget {
    /// The standard output stream.
    Stdout,
    /// A file in the platform's log directory. `file_name` is the file's name
    /// without extension; `None` leaves the name to the logger's default.
    LogDir { file_name: Option<String> },
    /// The log view inside the application window.
    Webview,
}

/// What a [`LogTarget`] stands for, with text as a sequence of characters.
pub enum TargetModel {
    Stdout,
    LogDir { file_name: Option<Seq<char>> },
    Webview,
}

impl View for LogTarget {
    type V = TargetModel;

    open spec fn view(&self) -> TargetModel {
        match self {
            LogTarget::Stdout => TargetModel::Stdout,
            LogTarget::LogDir { file_name } => TargetModel::LogDir {
                file_name: match file_name {
                    Some(name) => Some(name@),
                    None => None,
                },
            },
            LogTarget::Webview => TargetModel::Webview,
        }
    }
}

impl Clone for LogTarget {
    fn clone(&self) -> (copy: Self)
        ensures
            copy@ == self@,
    {
        match self {
            LogTarget::Stdout => LogTarget::Stdout,
            LogTarget::LogDir { file_name } => {
                let file_name = match file_name {
                    Some(name) => Some(name.clone()),
                    None => None,
                };
                LogTarget::LogDir { file_name }
            },
            LogTarget::Webview => LogTarget::Webview,
        }
    }
}

/// A logging configuration: the verbosity and the sinks, in order.
#[derive(Debug, PartialEq, Eq)]
pub struct LoggingConfig {
    pub level: Verbosity,
    pub targets: Vec<LogTarget>,
}

/// What a [`LoggingConfig`] stands for.
pub struct LoggingModel {
    pub level: Verbosity,
    pub targets: Seq<TargetModel>,
}

impl View for LoggingConfig {
    type V = LoggingModel;

    open spec fn view(&self) -> LoggingModel {
        LoggingModel {
            level: self.level,
            targets: self.targets@.map_values(|target: LogTarget| target@),
        }
    }
}

impl Clone for LoggingConfig {
    fn clone(&self) -> (copy: Self)
        ensures
            copy@ == self@,
    {
        let mut targets: Vec<LogTarget> = Vec::new();
        let mut i: usize = 0;
        while i < self.targets.len()
            invariant
                i <= self.targets.len(),
                targets.len() == i,
                forall|k: int| 0 <= k < i ==> targets[k]@ == self.targets[k]@,
            decreases self.targets.len() - i,
        {
            targets.push(self.targets[i].clone());
            i += 1;
        }
        let copy = LoggingConfig { level: self.level, targets };
        assert(copy@.targets =~= self@.targets);
        copy
    }
}

/// The sinks of the application: standard output, the log directory under the
/// default file name, and the in-app view.
pub open spec fn standard_targets() -> Seq<TargetModel> {
    seq![
        TargetModel::Stdout,
        TargetModel::LogDir { file_name: None },
        TargetModel::Webview,
    ]
}

/// The configuration of the application: `Info`, written to the standard sinks.
pub open spec fn standard_logging() -> LoggingModel {
    LoggingModel { level: Verbosity::Info, targets: standard_targets() }
}

/// Returns the logging configuration for a build. `debug_build` says whether
/// this is a development build; the caller reads it once, at startup.
///
/// Development and release builds are configured alike: more detailed logging
/// for development builds is not switched on.
pub fn configure_logging(debug_build: bool) -> (config: LoggingConfig)
    ensures
        config@ == standard_logging(),
        config.level == Verbosity::Info,
        config.targets@.len() == 3,
{
    let level = if debug_build {
        // Development builds: `Trace` would go here, once wanted.
        Verbosity::Info
    } else {
        // Release builds.
        Verbosity::Info
    };
    let mut targets: Vec<LogTarget> = Vec::new();
    targets.push(LogTarget::Stdout);
    targets.push(LogTarget::LogDir { file_name: None });
    targets.push(LogTarget::Webview);
    let config = LoggingConfig { level, targets };
    assert(config@.targets =~= standard_targets());
    config
}

/// The standard configuration logs at `Info` and has exactly three sinks, no
/// two of them the same.
pub proof fn lemma_standard_logging_shape()
    ensures
        standard_logging().level == Verbosity::Info,
        standard_logging().targets.len() == 3,
        standard_logging().targets.no_duplicates(),
{
}

} // verus!

//! The options from which a logger is made.

use crate::log::error::ConfigError;
use crate::log::log_type::LogType;
use vstd::prelude::*;

verus! {

/// What the program around the library found out about a directory.
#[derive(Clone, Copy, Debug, PartialEq, Eq, Structural)]
pub struct DirProbe {
    /// The path is absolute.
    pub absolute: bool,
    /// Something exists at the path.
    pub exists: bool,
    /// What is at the path is a directory.
    pub is_dir: bool,
    /// The path itself is a symbolic link.
    pub symlink: bool,
}

impl DirProbe {
    /// May log files go to this directory? Only if it is given by an absolute
    /// path, exists, is a directory and no symbolic link.
    pub open spec fn usable(self) -> bool {
        self.absolute && self.exists && self.is_dir && !self.symlink
    }
}

/// The options of a logger as plain values.
pub ghost struct LoggerOptsView {
    pub log_file_name: Seq<char>,
    pub log_type: LogType,
    pub log_label: Seq<char>,
    pub dt_format: Seq<char>,
    pub use_dt: bool,
    pub use_label: bool,
}

impl LoggerOptsView {
    /// The options that `LoggerOpts::new` starts from.
    pub open spec fn defaults() -> LoggerOptsView {
        LoggerOptsView {
            log_file_name: "llog.txt"@,
            log_type: LogType::File,
            log_label: "LLOG"@,
            dt_format: "%Y-%m-%d %H:%M:%S"@,
            use_dt: true,
            use_label: true,
        }
    }

    /// These options with the destination that `name` stands for.
    pub open spec fn with_log_type(self, name: Seq<char>) -> Result<LoggerOptsView, ConfigError> {
        match LogType::spec_from_name(name) {
            Some(log_type) => Ok(LoggerOptsView { log_type, ..self }),
            None => Err(ConfigError::LogType),
        }
    }

    /// These options, accepted for a directory that was probed.
    pub open spec fn with_dest_dir(self, probe: DirProbe) -> Result<LoggerOptsView, ConfigError> {
        if probe.usable() {
            Ok(self)
        } else {
            Err(ConfigError::DestDir)
        }
    }

    /// These options with another file name.
    pub open spec fn with_logfile_name(self, name: Seq<char>) -> Result<
        LoggerOptsView,
        ConfigError,
    > {
        if name.len() == 0 {
            Err(ConfigError::LogFileName)
        } else {
            Ok(LoggerOptsView { log_file_name: name, ..self })
        }
    }

    /// These options with another label.
    pub open spec fn with_log_label(self, label: Seq<char>) -> LoggerOptsView {
        LoggerOptsView { log_label: label, ..self }
    }

    /// These options with another pattern for the time.
    pub open spec fn with_dt_format(self, pattern: Seq<char>) -> LoggerOptsView {
        LoggerOptsView { dt_format: pattern, ..self }
    }
}

/// What a setter returns, as plain values.
pub open spec fn view_of(r: Result<LoggerOpts, ConfigError>) -> Result<
    LoggerOptsView,
    ConfigError,
> {
    match r {
        Ok(opts) => Ok(opts@),
        Err(e) => Err(e),
    }
}

/// The options of a logger. Each setter takes the options and gives them back
/// changed, so that calls can be chained.
#[derive(Debug)]
pub struct LoggerOpts {
    log_file_name: String,
    log_type: LogType,
    log_label: String,
    dt_format: String,
    use_dt: bool,
    use_label: bool,
}

impl View for LoggerOpts {
    type V = LoggerOptsView;

    closed spec fn view(&self) -> LoggerOptsView {
        LoggerOptsView {
            log_file_name: self.log_file_name@,
            log_type: self.log_type,
            log_label: self.log_label@,
            dt_format: self.dt_format@,
            use_dt: self.use_dt,
            use_label: self.use_label,
        }
    }
}

impl LoggerOpts {
    /// Takes the options apart: the file name, the pattern for the time, the
    /// label, the destination and the two switches.
    pub(crate) fn into_parts(self) -> (r: (String, String, String, LogType, bool, bool))
        ensures
            r.0@ == self@.log_file_name,
            r.1@ == self@.dt_format,
            r.2@ == self@.log_label,
            r.3 == self@.log_type,
            r.4 == self@.use_dt,
            r.5 == self@.use_label,
    {
        (
            self.log_file_name,
            self.dt_format,
            self.log_label,
            self.log_type,
            self.use_dt,
            self.use_label,
        )
    }

    /// The default options: the file `llog.txt` alone, the label `LLOG`, the
    /// time as in `2024-05-21 18:37:22`.
    pub fn new() -> (r: LoggerOpts)
        ensures
            r@ == LoggerOptsView::defaults(),
    {
        LoggerOpts {
            log_file_name: "llog.txt".to_owned(),
            log_type: LogType::File,
            log_label: "LLOG".to_owned(),
            dt_format: "%Y-%m-%d %H:%M:%S".to_owned(),
            use_dt: true,
            use_label: true,
        }
    }

    /// Chooses where the lines go, by name: `file` or `fileonly`, `console` or
    /// `consoleonly`, `both`, in any case. Any other name is refused.
    pub fn set_log_type(self, log_type: &str) -> (r: Result<LoggerOpts, ConfigError>)
        ensures
            view_of(r) == self@.with_log_type(log_type@),
    {
        match LogType::from_name(log_type) {
            Some(chosen) => Ok(LoggerOpts { log_type: chosen, ..self }),
            None => Err(ConfigError::LogType),
        }
    }

    /// Accepts a directory for the log file from what was found out about it.
    /// The options stay as they are; to go there is left to the caller.
    pub fn set_dest_dir(self, new_dest: DirProbe) -> (r: Result<LoggerOpts, ConfigError>)
        ensures
            view_of(r) == self@.with_dest_dir(new_dest),
    {
        if new_dest.absolute && new_dest.exists && new_dest.is_dir && !new_dest.symlink {
            Ok(self)
        } else {
            Err(ConfigError::DestDir)
        }
    }

    /// Names the log file. An empty name is refused.
    pub fn set_logfile_name(self, new_name: &str) -> (r: Result<LoggerOpts, ConfigError>)
        ensures
            view_of(r) == self@.with_logfile_name(new_name@),
    {
        if new_name.is_empty() {
            Err(ConfigError::LogFileName)
        } else {
            Ok(LoggerOpts { log_file_name: new_name.to_owned(), ..self })
        }
    }

    /// Sets the label at the start of each line. Any string will do.
    pub fn set_log_label(self, new_label: &str) -> (r: LoggerOpts)
        ensures
            r@ == self@.with_log_label(new_label@),
    {
        LoggerOpts { log_label: new_label.to_owned(), ..self }
    }

    /// Sets the pattern by which the time is rendered. It is stored as it is;
    /// whether it can be rendered shows when a line is logged.
    pub fn set_dt_format(self, new_format: &str) -> (r: LoggerOpts)
        ensures
            r@ == self@.with_dt_format(new_format@),
    {
        LoggerOpts { dt_format: new_format.to_owned(), ..self }
    }

    /// The name of the log file.
    pub fn log_file_name(&self) -> (r: &str)
        ensures
            r@ == self@.log_file_name,
    {
        self.log_file_name.as_str()
    }

    /// Where the lines go.
    pub fn log_type(&self) -> (r: LogType)
        ensures
            r == self@.log_type,
    {
        self.log_type
    }

    /// The label at the start of each line.
    pub fn log_label(&self) -> (r: &str)
        ensures
            r@ == self@.log_label,
    {
        self.log_label.as_str()
    }

    /// The pattern by which the time is rendered.
    pub fn dt_format(&self) -> (r: &str)
        ensures
            r@ == self@.dt_format,
    {
        self.dt_format.as_str()
    }

    /// The switch for the time in a line. No setter turns it off.
    pub fn use_dt(&self) -> (r: bool)
        ensures
            r == self@.use_dt,
    {
        self.use_dt
    }

    /// The switch for the label in a line. No setter turns it off.
    pub fn use_label(&self) -> (r: bool)
        ensures
            r == self@.use_label,
    {
        self.use_label
    }
}

} // verus!

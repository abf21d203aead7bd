//! The logger: it renders a line for each message and says where it goes.

use crate::log::clock::{local_now, strftime, text_of, Timestamp};
use crate::log::dispatch::{Dispatch, DispatchView};
use crate::log::error::LogError;
use crate::log::line::{compose_line, line_bytes, line_text, opt_text, payload_of};
use crate::log::log_type::LogType;
use crate::log::opts::{LoggerOpts, LoggerOptsView};
use vstd::prelude::*;

verus! {

/// A logger as plain values.
pub ghost struct LoggerView {
    /// The line that was rendered last.
    pub msg: Seq<char>,
    /// The time that was rendered last.
    pub date_time: Seq<char>,
    pub dt_format: Seq<char>,
    pub log_label: Seq<char>,
    pub log_type: LogType,
    pub use_dt: bool,
    pub use_label: bool,
}

/// What a log call returns, as plain values.
pub open spec fn sent(r: Result<Dispatch, LogError>) -> Result<DispatchView, LogError> {
    match r {
        Ok(d) => Ok(d@),
        Err(e) => Err(e),
    }
}

impl LoggerView {
    /// The logger that is made from `opts` when the time of its making reads
    /// `stamp`. Until a line is rendered it holds the file's name in place of
    /// a line; where the time could not be rendered, it holds none.
    pub open spec fn made(opts: LoggerOptsView, stamp: Option<Seq<char>>) -> LoggerView {
        LoggerView {
            msg: opts.log_file_name,
            date_time: match stamp {
                Some(t) => t,
                None => Seq::empty(),
            },
            dt_format: opts.dt_format,
            log_label: opts.log_label,
            log_type: opts.log_type,
            use_dt: opts.use_dt,
            use_label: opts.use_label,
        }
    }

    /// The logger after it rendered a line at a time that reads `stamp`.
    pub open spec fn rendered(
        self,
        stamp: Seq<char>,
        msg: Seq<char>,
        err: Option<Seq<char>>,
    ) -> LoggerView {
        LoggerView { msg: line_text(self.log_label, stamp, msg, err), date_time: stamp, ..self }
    }

    /// The dispatch of the line that was rendered last.
    pub open spec fn dispatch(self) -> DispatchView {
        DispatchView { payload: payload_of(self.msg), log_type: self.log_type }
    }

    /// What a log call does when the time reads `stamp`: it renders the line
    /// and sends it off; where the time could not be rendered, it fails and
    /// leaves the logger as it was.
    pub open spec fn logged(
        self,
        stamp: Option<Seq<char>>,
        msg: Seq<char>,
        err: Option<Seq<char>>,
    ) -> (LoggerView, Result<DispatchView, LogError>) {
        match stamp {
            Some(t) => {
                let next = self.rendered(t, msg, err);
                (next, Ok(next.dispatch()))
            },
            None => (self, Err(LogError::Format)),
        }
    }
}

/// A logger. It keeps the label, the pattern for the time and the
/// destination that it was made with, and the line that it rendered last.
#[derive(Debug)]
pub struct Logger {
    msg: String,
    date_time: String,
    dt_format: String,
    log_label: String,
    log_type: LogType,
    use_dt: bool,
    use_label: bool,
}

impl View for Logger {
    type V = LoggerView;

    closed spec fn view(&self) -> LoggerView {
        LoggerView {
            msg: self.msg@,
            date_time: self.date_time@,
            dt_format: self.dt_format@,
            log_label: self.log_label@,
            log_type: self.log_type,
            use_dt: self.use_dt,
            use_label: self.use_label,
        }
    }
}

impl Logger {
    /// Makes a logger from options and the text of the time of its making.
    pub fn from_parts(opts: LoggerOpts, stamp: Option<String>) -> (r: Logger)
        ensures
            r@ == LoggerView::made(opts@, text_of(stamp)),
    {
        let date_time = match stamp {
            Some(t) => t,
            None => String::new(),
        };
        let (log_file_name, dt_format, log_label, log_type, use_dt, use_label) = opts.into_parts();
        Logger { msg: log_file_name, date_time, dt_format, log_label, log_type, use_dt, use_label }
    }

    /// Makes a logger from options, at the instant `now`.
    pub fn new_at(opts: LoggerOpts, now: &Timestamp) -> (r: Logger)
        ensures
            r@ == LoggerView::made(opts@, now.text(opts@.dt_format)),
    {
        let stamp = strftime(now, opts.dt_format());
        Logger::from_parts(opts, stamp)
    }

    /// Makes a logger from options, at the time that the clock shows: it is
    /// the logger of `new_at` for an instant that the clock can show.
    pub fn new(opts: LoggerOpts) -> (r: Logger)
        ensures
            exists|now: Timestamp|
                now.from_clock() && r@ == LoggerView::made(
                    opts@,
                    #[trigger] now.text(opts@.dt_format),
                ),
    {
        let now = local_now();
        Logger::new_at(opts, &now)
    }

    /// Renders the line for a message at a time that reads `stamp`, and keeps
    /// both.
    pub fn update_log_line(&mut self, stamp: String, msg: &str, err: Option<&str>)
        ensures
            final(self)@ == old(self)@.rendered(stamp@, msg@, opt_text(err)),
    {
        let line = compose_line(self.log_label.as_str(), stamp.as_str(), msg, err);
        self.msg = line;
        self.date_time = stamp;
    }

    /// Logs a message, with or without an error, when the text of the time is
    /// `stamp`, or missing because the time could not be rendered.
    pub fn log_with_stamp(
        &mut self,
        stamp: Option<String>,
        msg: &str,
        err: Option<&str>,
    ) -> (r: Result<Dispatch, LogError>)
        ensures
            (final(self)@, sent(r)) == old(self)@.logged(text_of(stamp), msg@, opt_text(err)),
    {
        match stamp {
            Some(t) => {
                self.update_log_line(t, msg, err);
                Ok(Dispatch::new(line_bytes(self.msg.as_str()), self.log_type))
            },
            None => Err(LogError::Format),
        }
    }

    /// Logs a message, with or without an error, at the instant `now`.
    pub fn log_at(
        &mut self,
        now: &Timestamp,
        msg: &str,
        err: Option<&str>,
    ) -> (r: Result<Dispatch, LogError>)
        ensures
            (final(self)@, sent(r)) == old(self)@.logged(
                now.text(old(self)@.dt_format),
                msg@,
                opt_text(err),
            ),
    {
        let stamp = strftime(now, self.dt_format.as_str());
        self.log_with_stamp(stamp, msg, err)
    }

    /// Logs a message at the time that the clock shows: it does what `log_at`
    /// does for an instant that the clock can show.
    pub fn log_message(&mut self, msg: &str) -> (r: Result<Dispatch, LogError>)
        ensures
            exists|now: Timestamp|
                now.from_clock() && (final(self)@, sent(r)) == old(self)@.logged(
                    #[trigger] now.text(old(self)@.dt_format),
                    msg@,
                    None,
                ),
    {
        let now = local_now();
        self.log_at(&now, msg, None)
    }

    /// Logs a message and an error at the time that the clock shows: it does
    /// what `log_at` does for an instant that the clock can show.
    pub fn log_msg_and_error(&mut self, msg: &str, err: &str) -> (r: Result<Dispatch, LogError>)
        ensures
            exists|now: Timestamp|
                now.from_clock() && (final(self)@, sent(r)) == old(self)@.logged(
                    #[trigger] now.text(old(self)@.dt_format),
                    msg@,
                    Some(err@),
                ),
    {
        let now = local_now();
        self.log_at(&now, msg, Some(err))
    }

    /// The line that was rendered last, with a line feed after it.
    pub fn to_string(&self) -> (r: String)
        ensures
            r@ == self@.msg + "\n"@,
    {
        let mut text = self.msg.clone();
        text.append("\n");
        text
    }

    /// The line that was rendered last; before the first, the file's name.
    pub fn msg(&self) -> (r: &str)
        ensures
            r@ == self@.msg,
    {
        self.msg.as_str()
    }

    /// The time that was rendered last.
    pub fn date_time(&self) -> (r: &str)
        ensures
            r@ == self@.date_time,
    {
        self.date_time.as_str()
    }

    /// The pattern by which the time is rendered.
    pub fn dt_format(&self) -> (r: &str)
        ensures
            r@ == self@.dt_format,
    {
        self.dt_format.as_str()
    }

    /// The label at the start of each line.
    pub fn log_label(&self) -> (r: &str)
        ensures
            r@ == self@.log_label,
    {
        self.log_label.as_str()
    }

    /// Where the lines go.
    pub fn log_type(&self) -> (r: LogType)
        ensures
            r == self@.log_type,
    {
        self.log_type
    }

    /// The switch for the time in a line. It is on in every logger, and every
    /// line shows the time.
    pub fn use_dt(&self) -> (r: bool)
        ensures
            r == self@.use_dt,
    {
        self.use_dt
    }

    /// The switch for the label in a line. It is on in every logger, and every
    /// line shows the label.
    pub fn use_label(&self) -> (r: bool)
        ensures
            r == self@.use_label,
    {
        self.use_label
    }
}

impl Default for Logger {
    /// The logger of the default options, made at the time that the clock
    /// shows: an instant that the clock can show.
    fn default() -> (r: Logger)
        ensures
            exists|now: Timestamp|
                now.from_clock() && r@ == LoggerView::made(
                    LoggerOptsView::defaults(),
                    #[trigger] now.text(LoggerOptsView::defaults().dt_format),
                ),
    {
        Logger::new(LoggerOpts::new())
    }
}

} // verus!

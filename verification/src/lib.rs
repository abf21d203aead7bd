//! A little logger, without its sinks.
//!
//! A line has the form `[LABEL]::[time] -> message`, with an error, where
//! there is one, on a line of its own. The library keeps the options, renders
//! the line and says which sinks get it, the file before the console. The
//! program around it opens the sinks, writes the bytes and reports back.
//!
//! ```text
//! let opts = LoggerOpts::new().set_log_type("both")?.set_log_label("SERVER");
//! let mut logger = Logger::new(opts);
//! let dispatch = logger.log_message("Enter your message here!")?;
//! // write dispatch.payload() to each of dispatch.sinks(), then
//! dispatch.outcome(file_written, console_written)?;
//! ```

pub mod log;

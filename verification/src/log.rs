//! The logger, its options and the values that pass between them.

pub mod clock;
pub mod dispatch;
pub mod error;
pub mod laws;
pub mod line;
pub mod log_type;
pub mod logger;
pub mod opts;
pub mod text;

pub use self::clock::Timestamp;
pub use self::dispatch::Dispatch;
pub use self::error::{ConfigError, LogError, SinkSet};
pub use self::log_type::{LogType, Sink};
pub use self::logger::Logger;
pub use self::opts::{DirProbe, LoggerOpts};

use little_logger::log::clock::{FIRST_SECOND, LAST_SECOND};
use little_logger::log::line::{compose_line, line_bytes};
use little_logger::log::text::{same_text, upper_byte};
use little_logger::log::{
    Dispatch, LogError, LogType, Logger, LoggerOpts, Sink, SinkSet, Timestamp,
};

/// 2024-01-01 00:00:00 UTC.
const NEW_YEAR_2024: Timestamp = Timestamp { secs: 1_704_067_200, nanos: 0, offset: 0 };

fn opts(label: &str, pattern: &str, log_type: &str) -> LoggerOpts {
    LoggerOpts::new().set_log_label(label).set_dt_format(pattern).set_log_type(log_type).unwrap()
}

#[test]
fn line_without_an_error() {
    assert_eq!(compose_line("X", "2024", "m", None), "[X]::[2024] -> m");
    assert_eq!(
        compose_line("LLOG", "2024-05-21 18:37:22", "Enter your message here!", None),
        "[LLOG]::[2024-05-21 18:37:22] -> Enter your message here!"
    );
}

#[test]
fn line_with_an_error() {
    assert_eq!(compose_line("X", "2024", "m", Some("e")), "[X]::[2024] -> m\ne");
    assert_eq!(compose_line("X", "2024", "m", Some("")), "[X]::[2024] -> m\n");
}

#[test]
fn line_of_empty_parts() {
    assert_eq!(compose_line("", "", "", None), "[]::[] -> ");
    assert_eq!(compose_line("", "", "", Some("")), "[]::[] -> \n");
}

#[test]
fn line_with_an_error_is_the_line_and_the_error() {
    let plain = compose_line("SERVER", "18:37:22", "lost the peer", None);
    let full = compose_line("SERVER", "18:37:22", "lost the peer", Some("timed out"));
    assert_eq!(full, format!("{}\n{}", plain, "timed out"));
}

#[test]
fn bytes_of_a_line_end_in_a_line_feed() {
    assert_eq!(line_bytes("ab"), vec![97u8, 98, 10]);
    assert_eq!(line_bytes(""), vec![10u8]);
    assert_eq!(line_bytes("\u{e9}"), vec![0xc3u8, 0xa9, 10]);
}

#[test]
fn bytes_of_a_line_with_an_error_are_two_lines() {
    let plain = line_bytes(&compose_line("X", "2024", "m", None));
    let error = line_bytes("\u{e9}chec");
    let full = line_bytes(&compose_line("X", "2024", "m", Some("\u{e9}chec")));
    assert_eq!(full, [plain, error].concat());
    assert_eq!(full.as_slice(), "[X]::[2024] -> m\n\u{e9}chec\n".as_bytes());
}

#[test]
fn upper_byte_folds_ascii_letters_alone() {
    assert_eq!(upper_byte(b'a'), b'A');
    assert_eq!(upper_byte(b'z'), b'Z');
    assert_eq!(upper_byte(b'm'), b'M');
    assert_eq!(upper_byte(b'A'), b'A');
    assert_eq!(upper_byte(b'`'), b'`');
    assert_eq!(upper_byte(b'{'), b'{');
    assert_eq!(upper_byte(b'0'), b'0');
    assert_eq!(upper_byte(0xe9), 0xe9);
}

#[test]
fn same_text_compares_characters() {
    assert!(same_text("", ""));
    assert!(same_text("abc", "abc"));
    assert!(same_text("\u{e9}t\u{e9}", "\u{e9}t\u{e9}"));
    assert!(!same_text("abc", "abd"));
    assert!(!same_text("abc", "ab"));
    assert!(!same_text("abc", "ABC"));
    assert!(!same_text("", "a"));
}

#[test]
fn render_at_a_given_time() {
    let mut logger = Logger::new_at(opts("X", "%Y", "file"), &NEW_YEAR_2024);
    let dispatch = logger.log_at(&NEW_YEAR_2024, "m", None).unwrap();
    assert_eq!(logger.msg(), "[X]::[2024] -> m");
    assert_eq!(logger.date_time(), "2024");
    assert_eq!(dispatch.payload().as_slice(), "[X]::[2024] -> m\n".as_bytes());
}

#[test]
fn render_is_the_same_for_the_same_time() {
    let mut one = Logger::new_at(opts("X", "%Y-%m-%d %H:%M:%S", "both"), &NEW_YEAR_2024);
    let mut two = Logger::new_at(opts("X", "%Y-%m-%d %H:%M:%S", "both"), &NEW_YEAR_2024);
    let first = one.log_at(&NEW_YEAR_2024, "m", None).unwrap();
    let second = two.log_at(&NEW_YEAR_2024, "m", None).unwrap();
    assert_eq!(one.msg(), "[X]::[2024-01-01 00:00:00] -> m");
    assert_eq!(one.msg(), two.msg());
    assert_eq!(first.payload(), second.payload());
}

#[test]
fn render_with_the_offset_of_local_time() {
    let at = Timestamp { secs: 0, nanos: 0, offset: 3600 };
    let mut logger = Logger::new_at(opts("T", "%Y-%m-%d %H:%M:%S %z", "file"), &at);
    logger.log_at(&at, "epoch", None).unwrap();
    assert_eq!(logger.date_time(), "1970-01-01 01:00:00 +0100");
    assert_eq!(logger.msg(), "[T]::[1970-01-01 01:00:00 +0100] -> epoch");
    let west = Timestamp { secs: 0, nanos: 0, offset: -18_000 };
    logger.log_at(&west, "epoch", None).unwrap();
    assert_eq!(logger.date_time(), "1969-12-31 19:00:00 -0500");
}

#[test]
fn render_with_nanoseconds() {
    let at = Timestamp { secs: 1_643_723_400, nanos: 123_456_789, offset: 0 };
    let mut logger = Logger::new_at(opts("N", "%H:%M:%S%.9f", "console"), &at);
    logger.log_at(&at, "tick", None).unwrap();
    assert_eq!(logger.msg(), "[N]::[13:50:00.123456789] -> tick");
}

#[test]
fn log_with_error_appends_the_error() {
    let mut plain = Logger::new_at(opts("X", "%Y", "file"), &NEW_YEAR_2024);
    let mut full = Logger::new_at(opts("X", "%Y", "file"), &NEW_YEAR_2024);
    let short = plain.log_at(&NEW_YEAR_2024, "m", None).unwrap();
    let long = full.log_at(&NEW_YEAR_2024, "m", Some("e")).unwrap();
    assert_eq!(full.msg(), format!("{}\ne", plain.msg()));
    assert_eq!(full.msg(), "[X]::[2024] -> m\ne");
    assert_eq!(long.payload().as_slice(), "[X]::[2024] -> m\ne\n".as_bytes());
    assert_eq!(short.payload().as_slice(), "[X]::[2024] -> m\n".as_bytes());
    assert_eq!(long.sinks(), short.sinks());
}

#[test]
fn log_with_stamp_renders_and_keeps_the_line() {
    let mut logger = Logger::from_parts(opts("X", "%Y", "both"), None);
    assert_eq!(logger.date_time(), "");
    let dispatch = logger.log_with_stamp(Some(String::from("2024")), "m", None).unwrap();
    assert_eq!(logger.msg(), "[X]::[2024] -> m");
    assert_eq!(logger.date_time(), "2024");
    assert_eq!(dispatch.log_type(), LogType::Both);
    let again = logger.log_with_stamp(Some(String::from("2025")), "n", Some("e")).unwrap();
    assert_eq!(logger.msg(), "[X]::[2025] -> n\ne");
    assert_eq!(logger.date_time(), "2025");
    assert_eq!(again.payload().as_slice(), "[X]::[2025] -> n\ne\n".as_bytes());
}

#[test]
fn log_with_stamp_fails_without_a_time() {
    let mut logger = Logger::from_parts(opts("X", "%Y", "file"), Some(String::from("2023")));
    logger.log_with_stamp(Some(String::from("2024")), "m", None).unwrap();
    let failed = logger.log_with_stamp(None, "n", Some("e"));
    assert_eq!(failed.err(), Some(LogError::Format));
    assert_eq!(logger.msg(), "[X]::[2024] -> m");
    assert_eq!(logger.date_time(), "2024");
}

#[test]
fn update_log_line_overwrites_the_last_line() {
    let mut logger = Logger::from_parts(opts("L", "%Y", "file"), None);
    logger.update_log_line(String::from("t1"), "first", None);
    assert_eq!(logger.msg(), "[L]::[t1] -> first");
    logger.update_log_line(String::from("t2"), "second", Some("why"));
    assert_eq!(logger.msg(), "[L]::[t2] -> second\nwhy");
    assert_eq!(logger.date_time(), "t2");
    assert_eq!(logger.to_string(), "[L]::[t2] -> second\nwhy\n");
}

#[test]
fn a_pattern_that_cannot_be_rendered_fails_each_call() {
    let mut logger = Logger::new_at(opts("X", "%Q", "file"), &NEW_YEAR_2024);
    assert_eq!(logger.date_time(), "");
    assert_eq!(logger.msg(), "llog.txt");
    assert_eq!(logger.log_at(&NEW_YEAR_2024, "m", None).err(), Some(LogError::Format));
    assert_eq!(logger.log_at(&NEW_YEAR_2024, "m", Some("e")).err(), Some(LogError::Format));
    assert_eq!(logger.log_message("m").err(), Some(LogError::Format));
    assert_eq!(logger.log_msg_and_error("m", "e").err(), Some(LogError::Format));
    assert_eq!(logger.msg(), "llog.txt");
    assert_eq!(logger.date_time(), "");
}

#[test]
fn a_pattern_that_ends_in_a_percent_sign_fails() {
    let mut logger = Logger::new_at(opts("X", "%Y %", "file"), &NEW_YEAR_2024);
    assert_eq!(logger.log_at(&NEW_YEAR_2024, "m", None).err(), Some(LogError::Format));
}

#[test]
fn a_failed_call_leaves_the_logger_usable() {
    let mut logger = Logger::new_at(opts("X", "%Y", "file"), &NEW_YEAR_2024);
    let beyond = Timestamp { secs: i64::MAX, nanos: 0, offset: 0 };
    assert_eq!(logger.log_at(&beyond, "m", None).err(), Some(LogError::Format));
    assert_eq!(logger.msg(), "llog.txt");
    assert_eq!(logger.date_time(), "2024");
    logger.log_at(&NEW_YEAR_2024, "m", None).unwrap();
    assert_eq!(logger.msg(), "[X]::[2024] -> m");
}

#[test]
fn an_instant_that_chrono_cannot_hold_fails() {
    let mut logger = Logger::from_parts(opts("X", "%Y", "file"), None);
    let nanos = Timestamp { secs: 0, nanos: 2_000_000_000, offset: 0 };
    assert_eq!(logger.log_at(&nanos, "m", None).err(), Some(LogError::Format));
    let offset = Timestamp { secs: 0, nanos: 0, offset: 86_400 };
    assert_eq!(logger.log_at(&offset, "m", None).err(), Some(LogError::Format));
    let early = Timestamp { secs: i64::MIN, nanos: 0, offset: 0 };
    assert_eq!(logger.log_at(&early, "m", None).err(), Some(LogError::Format));
}

#[test]
fn the_first_and_the_last_second_render() {
    let mut logger = Logger::from_parts(opts("X", "%Y-%m-%d %H:%M:%S", "file"), None);
    let last = Timestamp { secs: LAST_SECOND, nanos: 999_999_999, offset: 0 };
    logger.log_at(&last, "m", None).unwrap();
    assert_eq!(logger.date_time(), "+262142-12-31 23:59:59");
    let first = Timestamp { secs: FIRST_SECOND, nanos: 0, offset: 0 };
    logger.log_at(&first, "m", None).unwrap();
    assert_eq!(logger.date_time(), "-262143-01-01 00:00:00");
    let east = Timestamp { secs: 0, nanos: 0, offset: 86_399 };
    logger.log_at(&east, "m", None).unwrap();
    assert_eq!(logger.date_time(), "1970-01-01 23:59:59");
    let west = Timestamp { secs: 0, nanos: 0, offset: -86_399 };
    logger.log_at(&west, "m", None).unwrap();
    assert_eq!(logger.date_time(), "1969-12-31 00:00:01");
}

#[test]
fn a_second_before_the_first_or_after_the_last_fails() {
    let mut logger = Logger::from_parts(opts("X", "%Y", "file"), None);
    let late = Timestamp { secs: LAST_SECOND + 1, nanos: 0, offset: 0 };
    assert_eq!(logger.log_at(&late, "m", None).err(), Some(LogError::Format));
    let early = Timestamp { secs: FIRST_SECOND - 1, nanos: 0, offset: 0 };
    assert_eq!(logger.log_at(&early, "m", None).err(), Some(LogError::Format));
    let west = Timestamp { secs: 0, nanos: 0, offset: -86_400 };
    assert_eq!(logger.log_at(&west, "m", None).err(), Some(LogError::Format));
}

#[test]
fn a_literal_pattern_renders_as_it_is() {
    let mut logger = Logger::new_at(opts("X", "at noon", "file"), &NEW_YEAR_2024);
    logger.log_at(&NEW_YEAR_2024, "m", None).unwrap();
    assert_eq!(logger.msg(), "[X]::[at noon] -> m");
    let mut empty = Logger::new_at(opts("X", "", "file"), &NEW_YEAR_2024);
    empty.log_at(&NEW_YEAR_2024, "m", None).unwrap();
    assert_eq!(empty.msg(), "[X]::[] -> m");
}

#[test]
fn new_logger_takes_the_options() {
    let options = LoggerOpts::new()
        .set_log_type("both")
        .unwrap()
        .set_logfile_name("my_log")
        .unwrap()
        .set_log_label("SERVER")
        .set_dt_format("%H-%M-%S");
    let at = Timestamp { secs: 1_716_316_642, nanos: 0, offset: 0 };
    let logger = Logger::new_at(options, &at);
    assert_eq!(logger.msg(), "my_log");
    assert_eq!(logger.date_time(), "18-37-22");
    assert_eq!(logger.dt_format(), "%H-%M-%S");
    assert_eq!(logger.log_label(), "SERVER");
    assert_eq!(logger.log_type(), LogType::Both);
    assert!(logger.use_dt());
    assert!(logger.use_label());
}

fn is_default_time(text: &str) -> bool {
    let bytes = text.as_bytes();
    if bytes.len() != 19 {
        return false;
    }
    for (i, b) in bytes.iter().enumerate() {
        let ok = match i {
            4 | 7 => *b == b'-',
            10 => *b == b' ',
            13 | 16 => *b == b':',
            _ => b.is_ascii_digit(),
        };
        if !ok {
            return false;
        }
    }
    true
}

#[test]
fn default_logger() {
    let logger = Logger::default();
    assert_eq!(logger.msg(), "llog.txt");
    assert_eq!(logger.dt_format(), "%Y-%m-%d %H:%M:%S");
    assert_eq!(logger.log_label(), "LLOG");
    assert_eq!(logger.log_type(), LogType::File);
    assert!(logger.use_dt());
    assert!(logger.use_label());
    assert!(is_default_time(logger.date_time()));
}

#[test]
fn default_logger_logs_hello() {
    let mut logger = Logger::default();
    let dispatch = logger.log_message("hello").unwrap();
    let line = logger.msg();
    assert!(line.starts_with("[LLOG]::["));
    assert!(line.ends_with("] -> hello"));
    assert_eq!(line.len(), "[LLOG]::[".len() + 19 + "] -> hello".len());
    assert!(is_default_time(&line[9..28]));
    assert_eq!(&line[9..28], logger.date_time());
    assert_eq!(dispatch.sinks(), vec![Sink::File]);
    assert_eq!(dispatch.payload().as_slice(), format!("{}\n", line).as_bytes());
    assert_eq!(dispatch.payload().iter().filter(|b| **b == b'\n').count(), 1);
}

#[test]
fn log_msg_and_error_at_the_time_of_the_clock() {
    let mut logger = Logger::new(opts("E", "%Y-%m-%d %H:%M:%S", "console"));
    let dispatch = logger.log_msg_and_error("could not connect", "timed out").unwrap();
    let line = String::from(logger.msg());
    assert!(line.starts_with("[E]::["));
    assert!(line.ends_with("] -> could not connect\ntimed out"));
    assert!(is_default_time(logger.date_time()));
    assert_eq!(line, format!("[E]::[{}] -> could not connect\ntimed out", logger.date_time()));
    assert_eq!(dispatch.sinks(), vec![Sink::Console]);
    assert_eq!(dispatch.payload().as_slice(), format!("{}\n", line).as_bytes());
}

#[test]
fn new_logger_at_the_time_of_the_clock() {
    let logger = Logger::new(opts("E", "%Y", "both"));
    assert_eq!(logger.date_time().len(), 4);
    assert!(logger.date_time().bytes().all(|b| b.is_ascii_digit()));
    assert_eq!(logger.msg(), "llog.txt");
    assert_eq!(logger.log_type(), LogType::Both);
}

fn dispatch_to(log_type: &str) -> Dispatch {
    let mut logger = Logger::new_at(opts("X", "%Y", log_type), &NEW_YEAR_2024);
    logger.log_at(&NEW_YEAR_2024, "m", None).unwrap()
}

#[test]
fn both_sinks_get_the_same_bytes_file_first() {
    let dispatch = dispatch_to("both");
    assert_eq!(dispatch.log_type(), LogType::Both);
    assert_eq!(dispatch.sinks(), vec![Sink::File, Sink::Console]);
    assert_eq!(dispatch.payload().as_slice(), "[X]::[2024] -> m\n".as_bytes());
}

#[test]
fn one_sink_alone() {
    let file = dispatch_to("fileonly");
    assert_eq!(file.sinks(), vec![Sink::File]);
    let console = dispatch_to("consoleonly");
    assert_eq!(console.sinks(), vec![Sink::Console]);
    assert_eq!(file.payload(), console.payload());
}

#[test]
fn dispatch_made_by_hand() {
    let dispatch = Dispatch::new(vec![104, 105, 10], LogType::Console);
    assert_eq!(dispatch.payload(), &vec![104u8, 105, 10]);
    assert_eq!(dispatch.log_type(), LogType::Console);
    assert_eq!(dispatch.sinks(), vec![Sink::Console]);
}

#[test]
fn outcome_of_writes_to_both() {
    let dispatch = dispatch_to("both");
    assert_eq!(dispatch.outcome(true, true), Ok(()));
    assert_eq!(
        dispatch.outcome(false, true),
        Err(LogError::Io(SinkSet { file: true, console: false }))
    );
    assert_eq!(
        dispatch.outcome(true, false),
        Err(LogError::Io(SinkSet { file: false, console: true }))
    );
    assert_eq!(
        dispatch.outcome(false, false),
        Err(LogError::Io(SinkSet { file: true, console: true }))
    );
}

#[test]
fn outcome_of_a_write_to_the_file_alone() {
    let dispatch = dispatch_to("file");
    assert_eq!(dispatch.outcome(true, true), Ok(()));
    assert_eq!(dispatch.outcome(true, false), Ok(()));
    assert_eq!(
        dispatch.outcome(false, true),
        Err(LogError::Io(SinkSet { file: true, console: false }))
    );
    assert_eq!(
        dispatch.outcome(false, false),
        Err(LogError::Io(SinkSet { file: true, console: false }))
    );
}

#[test]
fn outcome_of_a_write_to_the_console_alone() {
    let dispatch = dispatch_to("console");
    assert_eq!(dispatch.outcome(true, true), Ok(()));
    assert_eq!(dispatch.outcome(false, true), Ok(()));
    assert_eq!(
        dispatch.outcome(true, false),
        Err(LogError::Io(SinkSet { file: false, console: true }))
    );
    assert_eq!(
        dispatch.outcome(false, false),
        Err(LogError::Io(SinkSet { file: false, console: true }))
    );
}

#[test]
fn a_failed_write_leaves_the_logger_usable() {
    let mut logger = Logger::new_at(opts("X", "%Y", "both"), &NEW_YEAR_2024);
    let first = logger.log_at(&NEW_YEAR_2024, "one", None).unwrap();
    assert!(first.outcome(false, false).is_err());
    assert_eq!(logger.msg(), "[X]::[2024] -> one");
    let second = logger.log_at(&NEW_YEAR_2024, "two", None).unwrap();
    assert_eq!(second.outcome(true, true), Ok(()));
    assert_eq!(logger.msg(), "[X]::[2024] -> two");
}

/// Writes a dispatch as the program around the library does, to two buffers
/// in place of the file and the console, and says in which order.
fn deliver(dispatch: &Dispatch, file: &mut Vec<u8>, console: &mut Vec<u8>) -> Vec<Sink> {
    let mut order = Vec::new();
    for sink in dispatch.sinks() {
        match sink {
            Sink::File => file.extend_from_slice(dispatch.payload()),
            Sink::Console => console.extend_from_slice(dispatch.payload()),
        }
        order.push(sink);
    }
    order
}

#[test]
fn delivery_to_both_sinks() {
    let mut file = Vec::new();
    let mut console = Vec::new();
    let order = deliver(&dispatch_to("both"), &mut file, &mut console);
    assert_eq!(order, vec![Sink::File, Sink::Console]);
    assert_eq!(file, console);
    assert_eq!(file.as_slice(), "[X]::[2024] -> m\n".as_bytes());
}

#[test]
fn delivery_to_one_sink_leaves_the_other_alone() {
    let mut file = Vec::new();
    let mut console = Vec::new();
    deliver(&dispatch_to("file"), &mut file, &mut console);
    assert_eq!(file.as_slice(), "[X]::[2024] -> m\n".as_bytes());
    assert!(console.is_empty());
    file.clear();
    deliver(&dispatch_to("console"), &mut file, &mut console);
    assert!(file.is_empty());
    assert_eq!(console.as_slice(), "[X]::[2024] -> m\n".as_bytes());
}

#[test]
fn each_call_adds_one_line() {
    let mut file = Vec::new();
    let mut console = Vec::new();
    let mut logger = Logger::new_at(opts("LLOG", "%Y-%m-%d %H:%M:%S", "file"), &NEW_YEAR_2024);
    let first = logger.log_at(&NEW_YEAR_2024, "hello", None).unwrap();
    deliver(&first, &mut file, &mut console);
    assert_eq!(file.as_slice(), "[LLOG]::[2024-01-01 00:00:00] -> hello\n".as_bytes());
    let later = Timestamp { secs: 1_704_067_261, nanos: 0, offset: 0 };
    let second = logger.log_at(&later, "again", None).unwrap();
    deliver(&second, &mut file, &mut console);
    assert_eq!(
        String::from_utf8(file).unwrap(),
        "[LLOG]::[2024-01-01 00:00:00] -> hello\n[LLOG]::[2024-01-01 00:01:01] -> again\n"
    );
    assert!(console.is_empty());
}

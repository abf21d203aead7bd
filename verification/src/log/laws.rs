//! What holds of the options, of the line and of its dispatch, whatever the
//! values.

use crate::log::dispatch::DispatchView;
use crate::log::error::{ConfigError, LogError};
use crate::log::line::{
    lemma_utf8_of_concat, lemma_utf8_of_line_feed, line_text, payload_of,
};
use crate::log::log_type::{unicode_upper, LogType, Sink};
use crate::log::logger::LoggerView;
use crate::log::opts::{DirProbe, LoggerOptsView};
use crate::log::text::{ascii_upper, lemma_upper_keeps_ascii};
use vstd::prelude::*;
use vstd::utf8::{encode_utf8, is_ascii_chars};

verus! {

/// Are the two strings the same but for the case of their ASCII letters?
pub open spec fn same_but_for_case(a: Seq<char>, b: Seq<char>) -> bool {
    ascii_upper(a) == ascii_upper(b)
}

/// Is `name` one of the five names of a destination, in any case?
pub open spec fn names_a_log_type(name: Seq<char>) -> bool {
    ||| same_but_for_case(name, "file"@)
    ||| same_but_for_case(name, "fileonly"@)
    ||| same_but_for_case(name, "console"@)
    ||| same_but_for_case(name, "consoleonly"@)
    ||| same_but_for_case(name, "both"@)
}

/// The five names in upper case are what the lookup compares with.
proof fn lemma_upper_names()
    ensures
        ascii_upper("file"@) == "FILE"@,
        ascii_upper("fileonly"@) == "FILEONLY"@,
        ascii_upper("console"@) == "CONSOLE"@,
        ascii_upper("consoleonly"@) == "CONSOLEONLY"@,
        ascii_upper("both"@) == "BOTH"@,
        is_ascii_chars("FILE"@),
        is_ascii_chars("FILEONLY"@),
        is_ascii_chars("CONSOLE"@),
        is_ascii_chars("CONSOLEONLY"@),
        is_ascii_chars("BOTH"@),
        "FILE"@.len() == 4,
        "FILEONLY"@.len() == 8,
        "CONSOLE"@.len() == 7,
        "CONSOLEONLY"@.len() == 11,
        "BOTH"@.len() == 4,
        "FILE"@[0] == 'F',
        "BOTH"@[0] == 'B',
{
    reveal_strlit("file");
    reveal_strlit("fileonly");
    reveal_strlit("console");
    reveal_strlit("consoleonly");
    reveal_strlit("both");
    reveal_strlit("FILE");
    reveal_strlit("FILEONLY");
    reveal_strlit("CONSOLE");
    reveal_strlit("CONSOLEONLY");
    reveal_strlit("BOTH");
    assert(ascii_upper("file"@) =~= "FILE"@);
    assert(ascii_upper("fileonly"@) =~= "FILEONLY"@);
    assert(ascii_upper("console"@) =~= "CONSOLE"@);
    assert(ascii_upper("consoleonly"@) =~= "CONSOLEONLY"@);
    assert(ascii_upper("both"@) =~= "BOTH"@);
}

/// Each of the five names of a destination, in any case of its letters,
/// chooses its destination: `file` and `fileonly` the file, `console` and
/// `consoleonly` the console, `both` the two. An ASCII string that is none of
/// the five chooses nothing.
pub proof fn law_log_type_names(name: Seq<char>)
    ensures
        same_but_for_case(name, "file"@) || same_but_for_case(name, "fileonly"@)
            ==> LogType::spec_from_name(name) == Some(LogType::File),
        same_but_for_case(name, "console"@) || same_but_for_case(name, "consoleonly"@)
            ==> LogType::spec_from_name(name) == Some(LogType::Console),
        same_but_for_case(name, "both"@) ==> LogType::spec_from_name(name) == Some(LogType::Both),
        is_ascii_chars(name) && !names_a_log_type(name) ==> LogType::spec_from_name(name).is_none(),
{
    lemma_upper_names();
    lemma_upper_keeps_ascii(name);
}

/// Setting the destination by name succeeds for the five names, in any case,
/// with the destination that the name stands for and nothing else changed, and
/// fails for every other ASCII string. A name with a character beyond ASCII is
/// taken exactly if its upper-case form by the rules of Unicode is one of the
/// five in upper case.
pub proof fn law_set_log_type(opts: LoggerOptsView, name: Seq<char>)
    ensures
        names_a_log_type(name) ==> opts.with_log_type(name) is Ok,
        !is_ascii_chars(name) ==> (opts.with_log_type(name) is Ok <==> {
            ||| unicode_upper(name) == "FILE"@
            ||| unicode_upper(name) == "FILEONLY"@
            ||| unicode_upper(name) == "CONSOLE"@
            ||| unicode_upper(name) == "CONSOLEONLY"@
            ||| unicode_upper(name) == "BOTH"@
        }),
        is_ascii_chars(name) && !names_a_log_type(name) ==> opts.with_log_type(name) == Err::<
            LoggerOptsView,
            ConfigError,
        >(ConfigError::LogType),
        opts.with_log_type(name) matches Ok(next) ==> LogType::spec_from_name(name) == Some(
            next.log_type,
        ) && next == (LoggerOptsView { log_type: next.log_type, ..opts }),
{
    law_log_type_names(name);
}

/// The line for a message and an error is the line for the message alone, a
/// line feed and the error, when the time reads the same.
pub proof fn law_error_is_appended(
    label: Seq<char>,
    stamp: Seq<char>,
    msg: Seq<char>,
    err: Seq<char>,
)
    ensures
        line_text(label, stamp, msg, Some(err)) == line_text(label, stamp, msg, None) + "\n"@
            + err,
{
}

/// What is written for a line is the UTF-8 form of the line with a line feed
/// after it. What is written for a message and an error is what is written
/// for the message alone and then what is written for the error as a line.
pub proof fn law_error_is_a_line_more(
    label: Seq<char>,
    stamp: Seq<char>,
    msg: Seq<char>,
    err: Seq<char>,
)
    ensures
        payload_of(line_text(label, stamp, msg, None)) == encode_utf8(
            line_text(label, stamp, msg, None) + "\n"@,
        ),
        payload_of(line_text(label, stamp, msg, Some(err))) == payload_of(
            line_text(label, stamp, msg, None),
        ) + payload_of(err),
{
    let plain = line_text(label, stamp, msg, None);
    lemma_utf8_of_line_feed();
    lemma_utf8_of_concat(plain, "\n"@);
    lemma_utf8_of_concat(plain + "\n"@, err);
    assert(payload_of(plain) =~= encode_utf8(plain + "\n"@));
    assert(payload_of(plain + "\n"@ + err) =~= payload_of(plain) + payload_of(err));
}

/// Logging a message with an error leaves the logger with the line that
/// logging the message alone leaves, a line feed and the error, when the time
/// reads the same; and both go to the same sinks.
pub proof fn law_log_with_error(
    logger: LoggerView,
    stamp: Seq<char>,
    msg: Seq<char>,
    err: Seq<char>,
)
    ensures
        logger.logged(Some(stamp), msg, Some(err)).0.msg == logger.logged(
            Some(stamp),
            msg,
            None,
        ).0.msg + "\n"@ + err,
        logger.logged(Some(stamp), msg, Some(err)).1 is Ok,
        logger.logged(Some(stamp), msg, None).1 is Ok,
        logger.logged(Some(stamp), msg, Some(err)).1->Ok_0.sinks() == logger.logged(
            Some(stamp),
            msg,
            None,
        ).1->Ok_0.sinks(),
{
}

/// A line that goes to both sinks goes to the file first and then to the
/// console, and both receive the same bytes. A line for the file alone never
/// reaches the console, and one for the console alone never reaches the file.
pub proof fn law_dispatch(d: DispatchView)
    ensures
        d.log_type == LogType::Both ==> {
            &&& d.sinks() == seq![Sink::File, Sink::Console]
            &&& d.delivered(Sink::File) == Some(d.payload)
            &&& d.delivered(Sink::Console) == Some(d.payload)
        },
        d.log_type == LogType::File ==> {
            &&& d.sinks() == seq![Sink::File]
            &&& d.delivered(Sink::File) == Some(d.payload)
            &&& d.delivered(Sink::Console).is_none()
        },
        d.log_type == LogType::Console ==> {
            &&& d.sinks() == seq![Sink::Console]
            &&& d.delivered(Sink::Console) == Some(d.payload)
            &&& d.delivered(Sink::File).is_none()
        },
        forall|sink: Sink|
            #![trigger d.sinks().contains(sink)]
            #![trigger d.delivered(sink)]
            d.sinks().contains(sink) <==> d.delivered(sink).is_some(),
{
    assert forall|sink: Sink| d.sinks().contains(sink) <==> d.delivered(sink).is_some() by {
        let s = d.sinks();
        if d.delivered(sink).is_some() {
            match d.log_type {
                LogType::File => {
                    assert(s[0] == sink);
                },
                LogType::Console => {
                    assert(s[0] == sink);
                },
                LogType::Both => {
                    assert(s[0] == Sink::File);
                    assert(s[1] == Sink::Console);
                },
            }
        }
    }
}

/// Did the write to `sink` succeed?
pub open spec fn written(sink: Sink, file_written: bool, console_written: bool) -> bool {
    match sink {
        Sink::File => file_written,
        Sink::Console => console_written,
    }
}

/// A log call succeeds exactly if every sink of its dispatch took the bytes.
/// Where it fails, it names the sinks that did not: at least one, each a sink
/// of the dispatch. What became of a sink that is not one of them changes
/// nothing.
pub proof fn law_outcome(d: DispatchView, file_written: bool, console_written: bool)
    ensures
        d.outcome(file_written, console_written) is Ok <==> forall|sink: Sink|
            d.sinks().contains(sink) ==> #[trigger] written(sink, file_written, console_written),
        d.outcome(file_written, console_written) matches Err(e) ==> {
            &&& e matches LogError::Io(failed)
            &&& !failed.spec_is_empty()
            &&& forall|sink: Sink| #[trigger]
                failed.spec_contains(sink) <==> d.sinks().contains(sink) && !written(
                    sink,
                    file_written,
                    console_written,
                )
        },
        d.log_type == LogType::File ==> d.outcome(file_written, console_written) == d.outcome(
            file_written,
            !console_written,
        ),
        d.log_type == LogType::Console ==> d.outcome(file_written, console_written) == d.outcome(
            !file_written,
            console_written,
        ),
{
    law_dispatch(d);
    assert(d.sinks().contains(Sink::File) == d.log_type.spec_uses(Sink::File));
    assert(d.sinks().contains(Sink::Console) == d.log_type.spec_uses(Sink::Console));
    assert(written(Sink::File, file_written, console_written) == file_written);
    assert(written(Sink::Console, file_written, console_written) == console_written);
}

/// Of two calls of one setter the second decides: the options are those that
/// the second call alone would have made.
pub proof fn law_last_setter_wins(opts: LoggerOptsView, first: Seq<char>, second: Seq<char>)
    ensures
        opts.with_log_label(first).with_log_label(second) == opts.with_log_label(second),
        opts.with_dt_format(first).with_dt_format(second) == opts.with_dt_format(second),
        opts.with_logfile_name(first) matches Ok(o) ==> o.with_logfile_name(second)
            == opts.with_logfile_name(second),
        opts.with_log_type(first) matches Ok(o) ==> o.with_log_type(second) == opts.with_log_type(
            second,
        ),
{
}

/// A directory is accepted exactly if its path is absolute and leads to a
/// directory that exists and is no symbolic link. The options stay as they
/// were, and of two directories in turn the second decides.
pub proof fn law_dest_dir(opts: LoggerOptsView, first: DirProbe, second: DirProbe)
    ensures
        opts.with_dest_dir(first) is Ok <==> first.absolute && first.exists && first.is_dir
            && !first.symlink,
        opts.with_dest_dir(first) matches Ok(o) ==> o == opts,
        opts.with_dest_dir(first) matches Err(e) ==> e == ConfigError::DestDir,
        opts.with_dest_dir(first) matches Ok(o) ==> o.with_dest_dir(second) == opts.with_dest_dir(
            second,
        ),
{
}

/// A setter changes nothing but its own option.
pub proof fn law_setters_keep_the_rest(opts: LoggerOptsView, value: Seq<char>)
    ensures
        opts.with_log_label(value) == (LoggerOptsView { log_label: value, ..opts }),
        opts.with_dt_format(value) == (LoggerOptsView { dt_format: value, ..opts }),
        opts.with_logfile_name(value) matches Ok(o) ==> o == (LoggerOptsView {
            log_file_name: value,
            ..opts
        }),
        opts.with_log_type(value) matches Ok(o) ==> o == (LoggerOptsView {
            log_type: o.log_type,
            ..opts
        }),
{
}

} // verus!

//! The line that is written for a message.

use vstd::prelude::*;
use vstd::utf8::{encode_utf8, is_ascii_chars_encode_utf8};

verus! {

/// The line for a message: the label and the time in square brackets, an
/// arrow, the message and, where there is one, the error on a line of its own.
pub open spec fn line_text(
    label: Seq<char>,
    stamp: Seq<char>,
    msg: Seq<char>,
    err: Option<Seq<char>>,
) -> Seq<char> {
    let head = "["@ + label + "]::["@ + stamp + "] -> "@ + msg;
    match err {
        Some(e) => head + "\n"@ + e,
        None => head,
    }
}

/// The bytes that a sink receives for a line: the line in UTF-8 and a line feed.
pub open spec fn payload_of(line: Seq<char>) -> Seq<u8> {
    encode_utf8(line).push(10u8)
}

/// The UTF-8 form of two strings in a row is the two UTF-8 forms in a row.
pub proof fn lemma_utf8_of_concat(a: Seq<char>, b: Seq<char>)
    ensures
        encode_utf8(a + b) == encode_utf8(a) + encode_utf8(b),
    decreases a.len(),
{
    if a.len() == 0 {
        assert(a + b =~= b);
        assert(encode_utf8(a) + encode_utf8(b) =~= encode_utf8(b));
    } else {
        lemma_utf8_of_concat(a.drop_first(), b);
        assert((a + b).drop_first() =~= a.drop_first() + b);
        assert(encode_utf8(a + b) =~= encode_utf8(a) + encode_utf8(b));
    }
}

/// The UTF-8 form of a line feed is the one byte 10.
pub proof fn lemma_utf8_of_line_feed()
    ensures
        encode_utf8("\n"@) == seq![10u8],
{
    reveal_strlit("\n");
    is_ascii_chars_encode_utf8("\n"@);
    assert(encode_utf8("\n"@) =~= seq![10u8]);
}

/// A string slice that may be missing, as plain values.
pub open spec fn opt_text(text: Option<&str>) -> Option<Seq<char>> {
    match text {
        Some(t) => Some(t@),
        None => None,
    }
}

/// Puts the line for a message together.
pub fn compose_line(label: &str, stamp: &str, msg: &str, err: Option<&str>) -> (r: String)
    ensures
        r@ == line_text(label@, stamp@, msg@, opt_text(err)),
{
    let mut line = String::new();
    line.append("[");
    line.append(label);
    line.append("]::[");
    line.append(stamp);
    line.append("] -> ");
    line.append(msg);
    assert(line@ =~= "["@ + label@ + "]::["@ + stamp@ + "] -> "@ + msg@);
    match err {
        Some(e) => {
            line.append("\n");
            line.append(e);
        },
        None => {},
    }
    line
}

/// The bytes to write for a line.
pub fn line_bytes(line: &str) -> (r: Vec<u8>)
    ensures
        r@ == payload_of(line@),
{
    let mut bytes = line.as_bytes_vec();
    bytes.push(10u8);
    bytes
}

} // verus!

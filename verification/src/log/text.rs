//! Comparing strings, exactly and without regard to the case of ASCII letters.

use vstd::prelude::*;
use vstd::utf8::{
    encode_utf8, encode_utf8_decode_utf8, is_ascii_chars, is_ascii_chars_encode_utf8,
};

verus! {

/// The upper-case form of an ASCII letter; any other character as it is.
pub open spec fn ascii_upper_char(c: char) -> char {
    if 'a' <= c && c <= 'z' {
        ((c as u8) - 32) as u8 as char
    } else {
        c
    }
}

/// `s` with each ASCII letter in upper case.
pub open spec fn ascii_upper(s: Seq<char>) -> Seq<char> {
    Seq::new(s.len(), |i: int| ascii_upper_char(s[i]))
}

/// The upper-case form of the byte of an ASCII letter; any other byte as it is.
pub open spec fn ascii_upper_byte(b: u8) -> u8 {
    if 97 <= b && b <= 122 {
        (b - 32) as u8
    } else {
        b
    }
}

/// The upper-case form of the byte of an ASCII letter; any other byte as it is.
pub fn upper_byte(b: u8) -> (r: u8)
    ensures
        r == ascii_upper_byte(b),
{
    if 97 <= b && b <= 122 {
        b - 32
    } else {
        b
    }
}

/// On ASCII characters the upper case of the byte is the byte of the upper case.
pub proof fn lemma_upper_char_byte(c: char)
    requires
        c <= '\u{7f}',
    ensures
        ascii_upper_char(c) <= '\u{7f}',
        ascii_upper_char(c) as u8 == ascii_upper_byte(c as u8),
{
}

/// Changing the case of ASCII letters never makes a character ASCII that was
/// not: a string whose upper-case form is ASCII is ASCII itself.
pub proof fn lemma_upper_keeps_ascii(s: Seq<char>)
    ensures
        is_ascii_chars(ascii_upper(s)) == is_ascii_chars(s),
{
    if is_ascii_chars(s) {
        assert forall|i: int| 0 <= i < ascii_upper(s).len() implies '\0' <= #[trigger] ascii_upper(
            s,
        )[i] <= '\u{7f}' by {
            assert('\0' <= s[i] <= '\u{7f}');
        }
    }
    if is_ascii_chars(ascii_upper(s)) {
        assert forall|i: int| 0 <= i < s.len() implies '\0' <= #[trigger] s[i] <= '\u{7f}' by {
            assert('\0' <= ascii_upper(s)[i] <= '\u{7f}');
        }
    }
}

/// Are the two strings the same sequence of characters?
pub fn same_text(a: &str, b: &str) -> (r: bool)
    ensures
        r == (a@ == b@),
{
    let x = a.as_bytes();
    let y = b.as_bytes();
    proof {
        encode_utf8_decode_utf8(a@);
        encode_utf8_decode_utf8(b@);
    }
    if x.len() != y.len() {
        return false;
    }
    let mut i: usize = 0;
    while i < x.len()
        invariant
            0 <= i <= x@.len(),
            x@.len() == y@.len(),
            forall|j: int| 0 <= j < i ==> x@[j] == y@[j],
            x@ == encode_utf8(a@),
            y@ == encode_utf8(b@),
        decreases x@.len() - i,
    {
        if x[i] != y[i] {
            return false;
        }
        i += 1;
    }
    assert(x@ =~= y@);
    true
}

/// Is the upper-case form of the ASCII string `name` the string `word`?
pub(crate) fn same_upper(name: &str, word: &str) -> (r: bool)
    requires
        is_ascii_chars(name@),
    ensures
        r == (ascii_upper(name@) == word@),
{
    proof {
        lemma_upper_keeps_ascii(name@);
    }
    if !word.is_ascii() {
        return false;
    }
    let x = name.as_bytes();
    let y = word.as_bytes();
    proof {
        is_ascii_chars_encode_utf8(name@);
        is_ascii_chars_encode_utf8(word@);
    }
    if x.len() != y.len() {
        return false;
    }
    let mut i: usize = 0;
    while i < x.len()
        invariant
            0 <= i <= x@.len(),
            x@.len() == y@.len(),
            x@.len() == name@.len(),
            y@.len() == word@.len(),
            is_ascii_chars(name@),
            is_ascii_chars(word@),
            forall|j: int| 0 <= j < x@.len() ==> x@[j] == name@[j] as u8,
            forall|j: int| 0 <= j < y@.len() ==> y@[j] == word@[j] as u8,
            forall|j: int| 0 <= j < i ==> ascii_upper_char(name@[j]) == word@[j],
        decreases x@.len() - i,
    {
        proof {
            lemma_upper_char_byte(name@[i as int]);
            assert(word@[i as int] <= '\u{7f}');
        }
        if upper_byte(x[i]) != y[i] {
            assert(ascii_upper(name@)[i as int] != word@[i as int]);
            return false;
        }
        i += 1;
    }
    assert(ascii_upper(name@) =~= word@);
    true
}

} // verus!

//! Titles made fit for a reply.
use crate::text::{chars_of, push_char, push_text};
use vstd::prelude::*;
use vstd::utf8::{decode_utf8, encode_utf8, is_char_boundary};

verus! {

/// Titles of more bytes than this are cut.
pub const TITLE_BYTES: usize = 64;

/// Number of bytes of `s`, as a string reports it.
pub open spec fn byte_len(s: Seq<char>) -> usize {
    encode_utf8(s).len() as usize
}

/// `s` cut to its first `new_len` bytes, where it has more.
pub open spec fn truncated(s: Seq<char>, new_len: int) -> Seq<char> {
    if new_len >= encode_utf8(s).len() {
        s
    } else {
        decode_utf8(encode_utf8(s).subrange(0, new_len))
    }
}

/// `String::truncate`: shortens the string to its first `new_len` bytes,
/// and does nothing where it is not longer than that. The call panics where
/// it has to cut inside a character, so `new_len` must lie between two.
#[verifier::external_body]
fn truncate(s: &mut String, new_len: usize)
    requires
        new_len <= encode_utf8(old(s)@).len() ==> is_char_boundary(
            encode_utf8(old(s)@),
            new_len as int,
        ),
    ensures
        final(s)@ == truncated(old(s)@, new_len as int),
{
    s.truncate(new_len)
}

/// What stands for `c` in a title: a bracket, an angle or a backtick gives
/// way to a backslash and a look-alike that formats nothing; any other
/// character stays.
pub open spec fn escaped_char(c: char) -> Seq<char> {
    if c == '[' {
        seq!['\\', '\u{FF3B}']
    } else if c == ']' {
        seq!['\\', '\u{FF3D}']
    } else if c == '(' {
        seq!['\\', '\u{2768}']
    } else if c == ')' {
        seq!['\\', '\u{2769}']
    } else if c == '<' {
        seq!['\\', '\u{02C2}']
    } else if c == '>' {
        seq!['\\', '\u{02C3}']
    } else if c == '`' {
        seq!['\\', '\u{02CB}']
    } else {
        seq![c]
    }
}

/// `s` with each character replaced by what stands for it in a title.
pub open spec fn escaped(s: Seq<char>) -> Seq<char>
    decreases s.len(),
{
    if s.len() == 0 {
        Seq::empty()
    } else {
        escaped(s.drop_last()) + escaped_char(s.last())
    }
}

/// `title` cut to `TITLE_BYTES` bytes and three dots, where it is longer.
pub open spec fn shortened(title: Seq<char>) -> Seq<char> {
    if byte_len(title) > TITLE_BYTES {
        truncated(title, TITLE_BYTES as int) + "..."@
    } else {
        title
    }
}

/// A title as a reply shows it.
pub open spec fn clean_title_text(title: Seq<char>) -> Seq<char> {
    escaped(shortened(title))
}

/// Whether `title` can be cut where it has to be: it is short enough to
/// stay whole, or its byte `TITLE_BYTES` starts a character.
pub open spec fn can_be_cut(title: Seq<char>) -> bool {
    byte_len(title) > TITLE_BYTES ==> is_char_boundary(encode_utf8(title), TITLE_BYTES as int)
}

/// Appends what stands for `c` in a title.
fn push_escaped_char(out: &mut String, c: char)
    ensures
        final(out)@ == old(out)@ + escaped_char(c),
{
    if c == '[' {
        push_char(out, '\\');
        push_char(out, '\u{FF3B}');
    } else if c == ']' {
        push_char(out, '\\');
        push_char(out, '\u{FF3D}');
    } else if c == '(' {
        push_char(out, '\\');
        push_char(out, '\u{2768}');
    } else if c == ')' {
        push_char(out, '\\');
        push_char(out, '\u{2769}');
    } else if c == '<' {
        push_char(out, '\\');
        push_char(out, '\u{02C2}');
    } else if c == '>' {
        push_char(out, '\\');
        push_char(out, '\u{02C3}');
    } else if c == '`' {
        push_char(out, '\\');
        push_char(out, '\u{02CB}');
    } else {
        push_char(out, c);
    }
    assert(out@ =~= old(out)@ + escaped_char(c));
}

/// Makes a title fit for a reply: a long title is cut and gets three dots,
/// and the characters that would format the reply are replaced.
pub fn clean_title(title: String) -> (cleaned: String)
    requires
        can_be_cut(title@),
    ensures
        cleaned@ == clean_title_text(title@),
{
    let mut title = title;
    if title.as_str().len() > TITLE_BYTES {
        truncate(&mut title, TITLE_BYTES);
        push_text(&mut title, "...");
    }
    let chars = chars_of(title.as_str());
    let mut cleaned = String::new();
    let mut i: usize = 0;
    while i < chars.len()
        invariant
            i <= chars.len(),
            cleaned@ == escaped(chars@.take(i as int)),
        decreases chars.len() - i,
    {
        proof {
            let next = chars@.take(i + 1);
            assert(next.drop_last() =~= chars@.take(i as int));
            assert(next.last() == chars@[i as int]);
        }
        push_escaped_char(&mut cleaned, chars[i]);
        i += 1;
    }
    assert(chars@.take(chars.len() as int) =~= chars@);
    cleaned
}

/// Whether a title can be cut where `clean_title` has to cut it.
pub fn title_can_be_cut(title: &str) -> (b: bool)
    ensures
        b == can_be_cut(title@),
{
    title.len() <= TITLE_BYTES || title.is_char_boundary(TITLE_BYTES)
}

} // verus!

//! Framing: one message is one line.

use crate::json::json_text;
use crate::server::protocol::{frame_error, frame_error_reply};
use crate::text::{byte_len, is_space, trim_end, trimmed_end, utf8_len};
use vstd::prelude::*;
use vstd::string::*;

verus! {

/// The longest line that is taken, in bytes.
pub const MAX_FRAME_BYTES: usize = 8388608;

/// What is done with a line.
pub enum Frame {
    /// It is refused with this text.
    Refused(String),
    /// It holds nothing.
    Blank,
    /// It holds this message.
    Message(String),
}

/// Is this what is done with the line? One that is too long is refused; of the
/// others the white space at the end is dropped, and what is left is the
/// message.
pub open spec fn is_frame_of(f: Frame, line: Seq<char>) -> bool {
    if utf8_len(line) > MAX_FRAME_BYTES {
        f matches Frame::Refused(text) && text@ == json_text(
            frame_error_reply("frame exceeds the 8 MiB limit"@),
        )
    } else if trimmed_end(line).len() == 0 {
        f is Blank
    } else {
        f matches Frame::Message(m) && m@ == trimmed_end(line)
    }
}

/// What is done with a line.
pub fn read_frame(line: &str) -> (r: Frame)
    ensures
        is_frame_of(r, line@),
{
    if byte_len(line) > MAX_FRAME_BYTES {
        return Frame::Refused(frame_error("frame exceeds the 8 MiB limit"));
    }
    let text = trim_end(line);
    if text.as_str().is_empty() {
        return Frame::Blank;
    }
    Frame::Message(text)
}

/// A message is its line without the white space at the end: nothing else is taken
/// from it, and none is left there. A line of more than eight mebibytes is refused,
/// and one of white space alone holds no message.
pub proof fn law_messages_are_lines(line: &str, r: Frame)
    requires
        call_ensures(read_frame, (line,), r),
    ensures
        utf8_len(line@) > 8388608 <==> r is Refused,
        r matches Frame::Message(m) ==> {
            &&& m@.len() > 0
            &&& m@.is_prefix_of(line@)
            &&& !is_space(m@.last())
            &&& forall|i: int| m@.len() <= i < line@.len() ==> is_space(#[trigger] line@[i])
        },
        r is Blank <==> utf8_len(line@) <= 8388608 && forall|i: int|
            0 <= i < line@.len() ==> is_space(#[trigger] line@[i]),
{
    lemma_trimmed_end(line@);
}

proof fn lemma_trimmed_end(s: Seq<char>)
    ensures
        trimmed_end(s).is_prefix_of(s),
        trimmed_end(s).len() > 0 ==> !is_space(trimmed_end(s).last()),
        forall|i: int| trimmed_end(s).len() <= i < s.len() ==> is_space(#[trigger] s[i]),
    decreases s.len(),
{
    if s.len() > 0 && is_space(s.last()) {
        lemma_trimmed_end(s.drop_last());
        assert forall|i: int| trimmed_end(s).len() <= i < s.len() implies is_space(#[trigger] s[i]) by {
            if i < s.len() - 1 {
                assert(s.drop_last()[i] == s[i]);
            }
        }
    }
}

} // verus!

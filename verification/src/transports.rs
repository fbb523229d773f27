//! Framing of messages as lines of text.
//!
//! A stream transport carries one message per line. What reads and writes
//! the stream lives outside; the framing is here.

use vstd::prelude::*;
use vstd::string::StrSliceExecFns;
use vstd::string::StringExecFns;

verus! {

/// A line without its end: without the final line feed, and without the
/// carriage return before it where there is one.
pub open spec fn without_line_end(line: Seq<char>) -> Seq<char> {
    if line.len() > 0 && line.last() == '\n' {
        if line.len() > 1 && line[line.len() - 2] == '\r' {
            line.subrange(0, line.len() - 2)
        } else {
            line.subrange(0, line.len() - 1)
        }
    } else {
        line
    }
}

/// Strips the line end from a line that was read.
pub fn strip_line_end(line: &str) -> (out: String)
    ensures
        out@ == without_line_end(line@),
{
    let n = line.unicode_len();
    if n > 0 && line.get_char(n - 1) == '\n' {
        if n > 1 && line.get_char(n - 2) == '\r' {
            line.substring_char(0, n - 2).to_owned()
        } else {
            line.substring_char(0, n - 1).to_owned()
        }
    } else {
        line.to_owned()
    }
}

/// The line that carries `message`: the message and a line feed.
pub fn line_of(message: &str) -> (out: String)
    ensures
        out@ == message@ + "\n"@,
{
    message.to_owned().concat("\n")
}

} // verus!

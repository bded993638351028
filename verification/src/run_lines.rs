//! The lines that the command runner writes.

use crate::run::{Message, Parent};
use crate::signal::signal_name;
use crate::text::{append_number, append_signed};
use vstd::prelude::*;

verus! {

// ---------------------------------------------------------------------------------------------
// What the lines are made of
// ---------------------------------------------------------------------------------------------

/// The text that `String::from_utf8_lossy` makes of bytes.
pub uninterp spec fn utf8_lossy_text(bytes: Seq<u8>) -> Seq<char>;

/// `String::from_utf8_lossy`: bytes as text, with a replacement character for what is not UTF-8.
/// Taken on trust: the text depends on the bytes alone, and bytes that are UTF-8 are taken as they
/// are. Which bytes are replaced together is left to the name.
#[verifier::external_body]
fn utf8_lossy(bytes: &[u8]) -> (s: String)
    ensures
        s@ == utf8_lossy_text(bytes@),
        vstd::utf8::valid_utf8(bytes@) ==> s@ == vstd::utf8::decode_utf8(bytes@),
{
    String::from_utf8_lossy(bytes).into_owned()
}

/// The text that `str::escape_debug` makes of a text.
pub uninterp spec fn debug_escaped(s: Seq<char>) -> Seq<char>;

/// `str::escape_debug`: a text with its control characters, quotes and backslashes written as
/// escapes. Taken on trust: the result depends on the text alone. Which characters are escaped is
/// left to the name, since it follows the Unicode tables.
#[verifier::external_body]
fn escape_debug(s: &str) -> (e: String)
    ensures
        e@ == debug_escaped(s@),
{
    s.escape_debug().to_string()
}

// ---------------------------------------------------------------------------------------------
// The lines
// ---------------------------------------------------------------------------------------------

/// The line for what the child has written: how many bytes, and the bytes as text.
pub open spec fn captured_line_of(count: nat, text: Seq<char>) -> Seq<char> {
    "[myrun] captured "@ + crate::text::digits_of(count, 10) + " bytes: \""@ + text + "\""@
}

/// Writes the line for so many bytes that are shown as `text`.
pub fn captured_line(count: usize, text: &str) -> (line: String)
    ensures
        line@ == captured_line_of(count as nat, text@),
{
    let mut line = "[myrun] captured ".to_owned();
    append_number(&mut line, count as u64, 10);
    line.append(" bytes: \"");
    line.append(text);
    line.append("\"");
    line
}

/// Writes the line for what the child has written.
pub fn captured_report(bytes: &[u8]) -> (line: String)
    ensures
        line@ == captured_line_of(bytes@.len(), debug_escaped(utf8_lossy_text(bytes@))),
        vstd::utf8::valid_utf8(bytes@) ==> line@ == captured_line_of(
            bytes@.len(),
            debug_escaped(vstd::utf8::decode_utf8(bytes@)),
        ),
{
    let text = utf8_lossy(bytes);
    let escaped = escape_debug(text.as_str());
    captured_line(bytes.len(), escaped.as_str())
}

/// The line before the request to terminate.
pub open spec fn timeout_line_of(secs: u32, pid: i32) -> Seq<char> {
    "[myrun] timeout ("@ + crate::text::digits_of(secs as nat, 10)
        + "s), sending SIGTERM to pid="@ + crate::text::signed_digits_of(pid as int)
}

/// Writes the line before the request to terminate.
pub fn timeout_line(secs: u32, pid: i32) -> (line: String)
    ensures
        line@ == timeout_line_of(secs, pid),
{
    let mut line = "[myrun] timeout (".to_owned();
    append_number(&mut line, secs as u64, 10);
    line.append("s), sending SIGTERM to pid=");
    append_signed(&mut line, pid);
    line
}

/// The line before the kill.
pub open spec fn still_alive_line_of(pid: i32) -> Seq<char> {
    "[myrun] still alive after 1s, sending SIGKILL to pid="@ + crate::text::signed_digits_of(
        pid as int,
    )
}

/// Writes the line before the kill.
pub fn still_alive_line(pid: i32) -> (line: String)
    ensures
        line@ == still_alive_line_of(pid),
{
    let mut line = "[myrun] still alive after 1s, sending SIGKILL to pid=".to_owned();
    append_signed(&mut line, pid);
    line
}

/// The line for a child that exited.
pub open spec fn exited_line_of(pid: i32, status: i32) -> Seq<char> {
    "[myrun] pid="@ + crate::text::signed_digits_of(pid as int) + " exited with "@
        + crate::text::signed_digits_of(status as int)
}

/// Writes the line for a child that exited.
pub fn exited_line(pid: i32, status: i32) -> (line: String)
    ensures
        line@ == exited_line_of(pid, status),
{
    let mut line = "[myrun] pid=".to_owned();
    append_signed(&mut line, pid);
    line.append(" exited with ");
    append_signed(&mut line, status);
    line
}

/// The line for a child that a signal of that name killed.
pub open spec fn killed_line_of(pid: i32, name: Seq<char>) -> Seq<char> {
    "[myrun] pid="@ + crate::text::signed_digits_of(pid as int) + " killed by signal "@ + name
}

/// Writes the line for a child that a signal of that name killed.
pub fn killed_line(pid: i32, name: &str) -> (line: String)
    ensures
        line@ == killed_line_of(pid, name@),
{
    let mut line = "[myrun] pid=".to_owned();
    append_signed(&mut line, pid);
    line.append(" killed by signal ");
    line.append(name);
    line
}

/// The line for an end of the child that is shown as `end`.
pub open spec fn unexpected_line_of(end: Seq<char>) -> Seq<char> {
    "[Error] 子プロセスが exit 以外の結果を示しました: "@ + end
}

/// Writes the line for an end of the child that is shown as `end`.
pub fn unexpected_line(end: &str) -> (line: String)
    ensures
        line@ == unexpected_line_of(end@),
{
    let mut line = "[Error] 子プロセスが exit 以外の結果を示しました: ".to_owned();
    line.append(end);
    line
}

/// The line for a `fork` that failed with an error that is shown as `error`.
pub open spec fn fork_failed_line_of(error: Seq<char>) -> Seq<char> {
    "[Error] fork に失敗しました: "@ + error
}

/// Writes the line for a `fork` that failed with an error that is shown as `error`.
pub fn fork_failed_line(error: &str) -> (line: String)
    ensures
        line@ == fork_failed_line_of(error@),
{
    let mut line = "[Error] fork に失敗しました: ".to_owned();
    line.append(error);
    line
}

impl Parent {
    /// The line that a message stands for; `end` is how an unexpected end of the child is shown.
    pub open spec fn line_of(captured: Seq<u8>, message: Message, end: Seq<char>) -> Seq<char> {
        match message {
            Message::Captured => captured_line_of(
                captured.len(),
                debug_escaped(utf8_lossy_text(captured)),
            ),
            Message::TimedOut { secs, pid } => timeout_line_of(secs, pid),
            Message::StillAlive { pid } => still_alive_line_of(pid),
            Message::Exited { pid, status } => exited_line_of(pid, status),
            Message::Killed { pid, signal } => killed_line_of(pid, crate::signal::name_of(signal)),
            Message::Unexpected => unexpected_line_of(end),
        }
    }

    /// Writes the line that a message stands for; `end` is how an unexpected end of the child is
    /// shown.
    pub fn line(&self, message: Message, end: &str) -> (line: String)
        ensures
            line@ == Parent::line_of(self@.captured, message, end@),
    {
        match message {
            Message::Captured => captured_report(self.captured()),
            Message::TimedOut { secs, pid } => timeout_line(secs, pid),
            Message::StillAlive { pid } => still_alive_line(pid),
            Message::Exited { pid, status } => exited_line(pid, status),
            Message::Killed { pid, signal } => killed_line(pid, signal_name(signal)),
            Message::Unexpected => unexpected_line(end),
        }
    }
}

} // verus!

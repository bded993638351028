//! What a copy does next, for every buffer and every answer.

use crate::copy::{CopyAction, CopyFault, CopyState, Retry, WriteStep};
use crate::sys::SysResult;
use vstd::prelude::*;

verus! {

/// A copy opens its source, then its target, for all users to read and its owner to write, and then
/// reads as much as its buffer holds. An error of an `open` ends it with that error.
pub proof fn copy_opens_source_and_target(a: SysResult, b: SysResult, buf_size: usize)
    ensures
        CopyState::OpenSource.action(buf_size) == CopyAction::OpenSource,
        ({
            let s = CopyState::OpenSource.next(a, buf_size);
            let t = s.next(b, buf_size);
            match a {
                SysResult::Failed(e) => s.action(buf_size) == CopyAction::Fail(e),
                SysResult::Done(_) => {
                    &&& s.action(buf_size) == (CopyAction::OpenTarget { mode: 0o644 })
                    &&& match b {
                        SysResult::Failed(e) => t.action(buf_size) == CopyAction::Fail(e),
                        SysResult::Done(_) => t.action(buf_size) == (CopyAction::Read {
                            len: buf_size,
                        }),
                    }
                },
            }
        }),
{
}

/// What a `read` brings is written, all of it and from its start, for every size of the buffer.
pub proof fn read_bytes_are_written(s: CopyState, n: usize, buf_size: usize)
    requires
        s.action(buf_size) is Read,
        0 < n <= buf_size,
    ensures
        s.action(buf_size) == (CopyAction::Read { len: buf_size }),
        s.next(SysResult::Done(n), buf_size).action(buf_size) == (CopyAction::Write {
            from: 0,
            to: n,
        }),
{
}

/// A `read` that brings nothing finishes the copy, and nothing else does.
pub proof fn copy_finishes_at_the_end_of_the_source(
    s: CopyState,
    answer: SysResult,
    buf_size: usize,
)
    requires
        !(s.action(buf_size) is Finish),
    ensures
        s.next(answer, buf_size).action(buf_size) is Finish <==> s.action(buf_size) is Read
            && answer == SysResult::Done(0),
{
}

/// A `write` goes on behind what the last one took, up to the same end, until everything is taken;
/// then the copy reads again.
pub proof fn write_goes_on_behind_what_was_taken(
    s: CopyState,
    from: usize,
    to: usize,
    n: usize,
    buf_size: usize,
)
    requires
        s.action(buf_size) == (CopyAction::Write { from, to }),
        0 < n <= to - from,
    ensures
        s.next(SysResult::Done(n), buf_size).action(buf_size) == (if from + n < to {
            CopyAction::Write { from: (from + n) as usize, to }
        } else {
            CopyAction::Read { len: buf_size }
        }),
{
}

/// A copy that has not ended panics only after a `read` that counted more than it was asked for, or
/// a `write` that took nothing or more than it was given, and then it does.
pub proof fn copy_panics_on_impossible_answers_only(
    s: CopyState,
    answer: SysResult,
    buf_size: usize,
)
    requires
        !(s.action(buf_size) is Abort),
        s.fits(buf_size),
    ensures
        ({
            let a = s.next(answer, buf_size).action(buf_size);
            &&& a == CopyAction::Abort(CopyFault::ReadTooMuch) <==> (s.action(buf_size) is Read
                && answer is Done && answer->Done_0 > buf_size)
            &&& a == CopyAction::Abort(CopyFault::WroteNothing) <==> (s.action(buf_size) is Write
                && answer == SysResult::Done(0))
            &&& a == CopyAction::Abort(CopyFault::WroteTooMuch) <==> (s.action(
                buf_size,
            ) matches CopyAction::Write { from, to } && answer is Done && answer->Done_0 > to
                - from)
        }),
{
}

/// A copy that has not ended ends with an error only if a call failed with that error, and then it
/// does, unless a signal interrupted a `read` or a `write`: then nothing changes.
pub proof fn copy_ends_with_the_error_of_a_call(
    s: CopyState,
    answer: SysResult,
    e: i32,
    buf_size: usize,
)
    requires
        !(s.action(buf_size) is Fail),
        !(s.action(buf_size) is Finish),
        !(s.action(buf_size) is Abort),
    ensures
        s.next(answer, buf_size).action(buf_size) == CopyAction::Fail(e) <==> answer
            == SysResult::Failed(e) && (e != 4 || s.action(buf_size) is OpenSource || s.action(
            buf_size,
        ) is OpenTarget),
        s.action(buf_size) is Read || s.action(buf_size) is Write ==> s.next(
            SysResult::Failed(4),
            buf_size,
        ) == s,
{
}

/// A copy that has finished, failed or panicked stays as it is.
pub proof fn ended_copy_stays_ended(s: CopyState, answer: SysResult, buf_size: usize)
    requires
        s.action(buf_size) is Finish || s.action(buf_size) is Fail || s.action(buf_size) is Abort,
    ensures
        s.next(answer, buf_size) == s,
{
}

/// A call is made again exactly if it failed with the number of an interrupted call; every other
/// answer is passed on as it is.
pub proof fn only_interrupted_calls_are_made_again(answer: SysResult)
    ensures
        crate::copy::retry_of(answer) == (if answer == SysResult::Failed(4) {
            Retry::Again
        } else {
            Retry::Over(answer)
        }),
{
}

/// Writing is complete exactly when nothing is left, and otherwise what was taken and what is left
/// make up the whole; a `write` that takes nothing, or more than is left, is a panic, and only an
/// interrupted one takes nothing and goes on.
pub proof fn writing_adds_up(len: usize, written: usize, answer: SysResult)
    requires
        written <= len,
    ensures
        match answer {
            SysResult::Done(n) => match crate::copy::write_step(len, written, answer) {
                WriteStep::Complete => n > 0 && len - written == n,
                WriteStep::Continue { written: w } => n > 0 && w - written == n && w < len,
                WriteStep::Abort(CopyFault::WroteNothing) => n == 0,
                WriteStep::Abort(CopyFault::WroteTooMuch) => n > len - written && n > 0,
                _ => false,
            },
            SysResult::Failed(e) => crate::copy::write_step(len, written, answer) == (if e == 4 {
                WriteStep::Continue { written }
            } else {
                WriteStep::Fail(e)
            }),
        },
{
}

/// The size of a buffer is the number that the user writes down, as far as the machine can hold it.
pub proof fn buffer_size_reads_as_written(n: nat)
    ensures
        crate::copy::buf_size_of(crate::text::digits_of(n, 10)) == (if n <= usize::MAX {
            Some(n)
        } else {
            None
        }),
{
    crate::text::lemma_digits(n, 10);
    crate::text::written_number_reads_back(n, 10, n);
}

} // verus!

//! What the command runner does next, whatever it has done before.
//!
//! The laws speak of actions: which action follows when an action gets its answer. They hold of
//! every parent, with whatever it has captured.

use crate::run::{
    ChildEnd, Event, KillSignal, Message, ParentView, ReadResult, ReadStep, RunAction, RunFault,
};
use crate::signal::Signal;
use crate::sys::{ErrnoKind, SysResult};
use vstd::prelude::*;

verus! {

/// The error number of a call that a signal interrupted.
pub open spec fn eintr() -> int {
    4
}

/// Only the number of an interrupted call stands for an interruption, only those of a missing file
/// and of a path through something that is no directory stand for these, and no number stands for
/// two things.
pub proof fn errors_are_told_apart_by_their_numbers(e: i32)
    ensures
        crate::sys::kind_of(e) == ErrnoKind::Interrupted <==> e == eintr(),
        crate::sys::kind_of(e) == ErrnoKind::NoEntry <==> e == 2,
        crate::sys::kind_of(e) == ErrnoKind::NotDirectory <==> e == 20,
{
}

/// A `read` means a timeout exactly if it was interrupted and the alarm has gone off; it is made
/// again exactly if it was interrupted without the alarm; every count and every other error is
/// passed on as it is.
pub proof fn reads_are_judged_by_error_and_alarm(answer: SysResult, alarm: bool)
    ensures
        crate::run::read_step(answer, alarm) == ReadStep::Over(ReadResult::Timeout) <==> alarm
            && answer == SysResult::Failed(4),
        crate::run::read_step(answer, alarm) == ReadStep::Again <==> !alarm && answer
            == SysResult::Failed(4),
        answer matches SysResult::Done(n) ==> crate::run::read_step(answer, alarm)
            == ReadStep::Over(ReadResult::Success(n)),
        answer matches SysResult::Failed(e) ==> (e != eintr() ==> crate::run::read_step(
            answer,
            alarm,
        ) == ReadStep::Fail(e)),
{
}

/// Whether a parent differs from an earlier one in nothing that it keeps.
pub open spec fn keeps(p: ParentView, q: ParentView) -> bool {
    &&& q.child == p.child
    &&& q.timeout == p.timeout
    &&& q.captured == p.captured
    &&& q.term_sent == p.term_sent
}

/// A parent starts with nothing captured and `SIGTERM` not sent, and closes its end of the pipe.
/// Without a timeout it then reads. With one it has the alarm interrupt its reads, sets the alarm
/// for just that time, and then reads; a timeout of zero is a panic, and a failure ends it.
pub proof fn reading_starts_with_the_timeout_set(
    child: i32,
    timeout: Option<u32>,
    closed: SysResult,
    installed: SysResult,
    set: SysResult,
)
    ensures
        ({
            let p = ParentView::initial(child, timeout);
            let q = p.next(Event::Answered(closed));
            let r = q.next(Event::Answered(installed));
            let s = r.next(Event::Answered(set));
            &&& p.action() == RunAction::CloseWriteEnd
            &&& p.captured.len() == 0
            &&& !p.term_sent
            &&& p.child == child
            &&& p.timeout == timeout
            &&& keeps(p, q)
            &&& timeout is None ==> q.action() == RunAction::Read
            &&& timeout matches Some(secs) ==> {
                &&& q.action() == RunAction::InstallHandler
                &&& keeps(p, r)
                &&& keeps(p, s)
                &&& match installed {
                    SysResult::Failed(e) => r.action() == RunAction::Fail(e),
                    SysResult::Done(_) => if secs == 0 {
                        r.action() == RunAction::Abort(RunFault::ZeroTimeout)
                    } else {
                        r.action() == RunAction::SetAlarm(secs) && s.action() == RunAction::Read
                    },
                }
            }
        }),
{
}

/// What a `read` brings is put behind what was captured, just as many bytes as it counts, and the
/// parent reads on.
pub proof fn read_bytes_are_kept(p: ParentView, n: usize, buf: Seq<u8>, alarm: bool)
    requires
        p.action() == RunAction::Read,
        0 < n <= buf.len(),
    ensures
        ({
            let q = p.next(Event::Read { answer: SysResult::Done(n), buf, alarm });
            &&& q.action() == RunAction::Read
            &&& q.captured.len() == p.captured.len() + n
            &&& forall|i: int| 0 <= i < p.captured.len() ==> q.captured[i] == p.captured[i]
            &&& forall|i: int|
                0 <= i < n ==> #[trigger] q.captured[p.captured.len() + i] == buf[i]
            &&& keeps(p, ParentView { captured: p.captured, ..q })
        }),
{
}

/// At the end of the pipe the parent says what it has captured, cancels the alarm and waits for its
/// child, in this order and whatever these answer.
pub proof fn end_of_pipe_leads_to_the_wait(
    p: ParentView,
    buf: Seq<u8>,
    alarm: bool,
    said: SysResult,
    cancelled: SysResult,
)
    requires
        p.action() == RunAction::Read,
    ensures
        ({
            let q = p.next(Event::Read { answer: SysResult::Done(0), buf, alarm });
            let r = q.next(Event::Answered(said));
            let s = r.next(Event::Answered(cancelled));
            &&& q.action() == RunAction::Say(Message::Captured)
            &&& r.action() == RunAction::CancelAlarm
            &&& s.action() == RunAction::Wait { pid: p.child }
            &&& keeps(p, q)
            &&& keeps(p, r)
            &&& keeps(p, s)
        }),
{
}

/// The first alarm that interrupts a `read` makes the parent say so and send `SIGTERM` to the group
/// of its child, whatever was captured. Then it takes the flag back, sets the alarm for one second
/// and reads on; if the signal could not be sent, it ends with that error.
pub proof fn first_alarm_terminates(
    p: ParentView,
    secs: u32,
    buf: Seq<u8>,
    said: SysResult,
    sent: SysResult,
    cleared: SysResult,
    set: SysResult,
)
    requires
        p.action() == RunAction::Read,
        !p.term_sent,
        p.timeout == Some(secs),
    ensures
        ({
            let e = Event::Read { answer: SysResult::Failed(4), buf, alarm: true };
            let q = p.next(e);
            let r = q.next(Event::Answered(said));
            let s = r.next(Event::Answered(sent));
            let t = s.next(Event::Answered(cleared));
            let u = t.next(Event::Answered(set));
            &&& q.action() == RunAction::Say(Message::TimedOut { secs, pid: p.child })
            &&& r.action() == (RunAction::KillGroup { pid: p.child, signal: KillSignal::Term })
            &&& keeps(p, q)
            &&& keeps(p, r)
            &&& match sent {
                SysResult::Failed(e) => s.action() == RunAction::Fail(e),
                SysResult::Done(_) => {
                    &&& s.action() == RunAction::ClearFlag
                    &&& t.action() == RunAction::SetAlarm(1)
                    &&& u.action() == RunAction::Read
                    &&& u.term_sent
                    &&& keeps(p, ParentView { term_sent: p.term_sent, ..u })
                },
            }
        }),
{
}

/// Every later alarm that interrupts a `read` makes the parent say so and send `SIGKILL` to the
/// group of its child, whatever was captured, and read on; if the signal could not be sent, it ends
/// with that error.
pub proof fn later_alarms_kill(p: ParentView, buf: Seq<u8>, said: SysResult, sent: SysResult)
    requires
        p.action() == RunAction::Read,
        p.term_sent,
    ensures
        ({
            let e = Event::Read { answer: SysResult::Failed(4), buf, alarm: true };
            let q = p.next(e);
            let r = q.next(Event::Answered(said));
            let s = r.next(Event::Answered(sent));
            &&& q.action() == RunAction::Say(Message::StillAlive { pid: p.child })
            &&& r.action() == (RunAction::KillGroup { pid: p.child, signal: KillSignal::Kill })
            &&& keeps(p, q)
            &&& keeps(p, r)
            &&& match sent {
                SysResult::Failed(e) => s.action() == RunAction::Fail(e),
                SysResult::Done(_) => s.action() == RunAction::Read && keeps(p, s),
            }
        }),
{
}

/// A `read` that is interrupted without the alarm leaves the parent as it is; any other error ends
/// it with that error; a count beyond the buffer, and an alarm without a timeout, are panics.
pub proof fn other_answers_to_a_read(p: ParentView, buf: Seq<u8>, alarm: bool, e: i32, n: usize)
    requires
        p.action() == RunAction::Read,
    ensures
        p.next(Event::Read { answer: SysResult::Failed(4), buf, alarm: false }) == p,
        e != eintr() ==> p.next(
            Event::Read { answer: SysResult::Failed(e), buf, alarm },
        ).action() == RunAction::Fail(e),
        n > 0 && n > buf.len() ==> p.next(
            Event::Read { answer: SysResult::Done(n), buf, alarm },
        ).action() == RunAction::Abort(RunFault::ReadTooMuch),
        !p.term_sent && p.timeout is None ==> p.next(
            Event::Read { answer: SysResult::Failed(4), buf, alarm: true },
        ).action() == RunAction::Abort(RunFault::NoTimeout),
{
}

/// What is reported is how the child ended, with the very process and status or signal that the
/// wait has told, and the exit code that follows is the status, or 128 and the number of the
/// signal, or 1.
pub proof fn end_is_reported_as_it_was_told(
    p: ParentView,
    pid: i32,
    status: i32,
    signal: Signal,
    number: u8,
    said: SysResult,
)
    requires
        p.action() is Wait,
    ensures
        ({
            let q = p.next(Event::Waited(Some(ChildEnd::Exited { pid, status })));
            &&& q.action() == RunAction::Say(Message::Exited { pid, status })
            &&& q.next(Event::Answered(said)).action() == RunAction::Exit(status)
            &&& keeps(p, q)
        }),
        ({
            let q = p.next(Event::Waited(Some(ChildEnd::Signaled { pid, signal, number })));
            &&& q.action() == RunAction::Say(Message::Killed { pid, signal })
            &&& q.next(Event::Answered(said)).action() matches RunAction::Exit(code) && code - 128
                == number
            &&& keeps(p, q)
        }),
        ({
            let q = p.next(Event::Waited(Some(ChildEnd::Other)));
            &&& q.action() == RunAction::Say(Message::Unexpected)
            &&& q.next(Event::Answered(said)).action() == RunAction::Exit(1)
            &&& keeps(p, q)
        }),
        p.next(Event::Waited(None)).action() == RunAction::Abort(RunFault::WaitFailed),
{
}

/// The exit code tells ends apart as a shell does: a status stands for itself, and a signal for 128
/// and its number, whichever process it was.
pub proof fn exit_codes_follow_the_shell(pid: i32, status: i32, signal: Signal, number: u8)
    ensures
        crate::run::exit_code_of(ChildEnd::Exited { pid, status }) == status,
        crate::run::exit_code_of(ChildEnd::Signaled { pid, signal, number }) - 128 == number,
        crate::run::exit_code_of(ChildEnd::Other) == 1,
{
}

/// A parent that exits, fails or panics does nothing else any more.
pub proof fn ended_parent_stays_ended(p: ParentView, answer: SysResult)
    requires
        p.action() is Exit || p.action() is Fail || p.action() is Abort,
    ensures
        p.next(Event::Answered(answer)) == p,
{
}

/// No event changes whose parent it is or the timeout, takes captured bytes away, or takes back
/// that `SIGTERM` was sent.
pub proof fn nothing_is_forgotten(p: ParentView, event: Event)
    ensures
        p.next(event).child == p.child,
        p.next(event).timeout == p.timeout,
        p.captured.len() <= p.next(event).captured.len(),
        forall|i: int|
            0 <= i < p.captured.len() ==> p.next(event).captured[i] == #[trigger] p.captured[i],
        p.term_sent ==> p.next(event).term_sent,
{
}

/// The child closes the end of the pipe that it does not use before anything else, and does so
/// whatever that answers.
pub proof fn child_closes_its_unused_end_first(answers: Seq<SysResult>)
    requires
        answers.len() > 0,
    ensures
        crate::run_laws::child_at(answers, 0) == crate::run::ChildState::CloseReadEnd,
        crate::run_laws::child_at(answers, 1) == crate::run::ChildState::RedirectStdout,
{
    reveal_with_fuel(crate::run_laws::child_at, 3);
}

/// The number of seconds that a variable gives is the number that it writes down, up to the
/// largest number of 32 bits, and no other.
pub proof fn seconds_read_as_written(n: nat)
    ensures
        crate::run::seconds_of(crate::text::digits_of(n, 10)) == (if n <= 0xffff_ffff {
            Some(n)
        } else {
            None
        }),
{
    crate::text::lemma_digits(n, 10);
    crate::text::written_number_reads_back(n, 10, n);
}

/// A list of texts holds a NUL character from a place on exactly if one of the texts there does.
pub proof fn nul_is_found_wherever_it_stands(args: Seq<String>, from: int, i: int)
    requires
        0 <= from <= i < args.len(),
    ensures
        args[i]@.contains('\0') ==> crate::run::nul_from(args, from),
        crate::run::nul_from(args, from) ==> args[from]@.contains('\0') || crate::run::nul_from(
            args,
            from + 1,
        ),
        !crate::run::nul_from(args, args.len() as int),
{
    if crate::run::nul_from(args, from) {
        let j = choose|j: int| from <= j < args.len() && (#[trigger] args[j])@.contains('\0');
        assert(j == from || from + 1 <= j);
    }
}

} // verus!

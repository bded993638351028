//! What holds of every run of the command runner, whatever the kernel answers.

use crate::run::{ChildEnd, ChildState, Event, KillSignal, ParentState, ParentView, RunAction};
use crate::sys::SysResult;
use vstd::prelude::*;

verus! {

/// The parent after the first `n` events of a run.
pub open spec fn at(start: ParentView, events: Seq<Event>, n: int) -> ParentView
    decreases n,
{
    if n <= 0 {
        start
    } else {
        at(start, events, n - 1).next(events[n - 1])
    }
}

/// What the parent does before the event at place `n`.
pub open spec fn action_at(start: ParentView, events: Seq<Event>, n: int) -> RunAction {
    at(start, events, n).action()
}

/// Whether every event of a run answers what the parent has asked for.
pub open spec fn in_turn(start: ParentView, events: Seq<Event>) -> bool {
    forall|i: int|
        0 <= i < events.len() ==> #[trigger] at(start, events, i).expects(events[i])
}

/// Whether an event says that the pipe has come to its end.
pub open spec fn is_end_of_pipe(event: Event) -> bool {
    event matches Event::Read { answer, .. } && answer == SysResult::Done(0)
}

/// The bytes that the child has written, as the first `n` events of a run bring them.
pub open spec fn delivered(start: ParentView, events: Seq<Event>, n: int) -> Seq<u8>
    decreases n,
{
    if n <= 0 {
        Seq::empty()
    } else {
        let early = delivered(start, events, n - 1);
        match events[n - 1] {
            Event::Read { answer: SysResult::Done(m), buf, alarm } if m <= buf.len() => early
                + buf.take(m as int),
            _ => early,
        }
    }
}

/// What was captured is what was read: every byte of every `read`, in order, and nothing else of
/// the buffer.
pub proof fn captures_what_is_read(child: i32, timeout: Option<u32>, events: Seq<Event>, n: int)
    requires
        in_turn(ParentView::initial(child, timeout), events),
        0 <= n <= events.len(),
    ensures
        at(ParentView::initial(child, timeout), events, n).captured == delivered(
            ParentView::initial(child, timeout),
            events,
            n,
        ),
    decreases n,
{
    let start = ParentView::initial(child, timeout);
    if n > 0 {
        captures_what_is_read(child, timeout, events, n - 1);
        let before = at(start, events, n - 1);
        assert(before.expects(events[n - 1]));
        match events[n - 1] {
            Event::Read { answer: SysResult::Done(m), buf, alarm } => {
                if m == 0 {
                    assert(before.captured + buf.take(0) =~= before.captured);
                }
            },
            _ => {},
        }
    }
}

/// The parent closes its end of the pipe before anything else, so before it reads: as long as it
/// held that end, the pipe could not come to its end.
pub proof fn closes_write_end_first(child: i32, timeout: Option<u32>, events: Seq<Event>)
    ensures
        action_at(ParentView::initial(child, timeout), events, 0) == RunAction::CloseWriteEnd,
{
}

proof fn lemma_wait_follows_end(start: ParentView, events: Seq<Event>, n: int)
    requires
        start.state == ParentState::CloseWriteEnd,
        in_turn(start, events),
        0 <= n <= events.len(),
    ensures
        ({
            let s = at(start, events, n).state;
            &&& s is SayCaptured || s is CancelAlarm || s is Waiting || s is SayEnd
                || s is Exiting ==> exists|j: int|
                0 <= j < n && is_end_of_pipe(#[trigger] events[j])
            &&& s is Waiting || s is SayEnd || s is Exiting ==> exists|j: int, k: int|
                0 <= j < k < n && is_end_of_pipe(#[trigger] events[j]) && #[trigger] action_at(
                    start,
                    events,
                    k,
                ) == RunAction::CancelAlarm
        }),
    decreases n,
{
    if n > 0 {
        lemma_wait_follows_end(start, events, n - 1);
        let before = at(start, events, n - 1);
        assert(before.expects(events[n - 1]));
        if before.state is Reading {
            if at(start, events, n).state is SayCaptured {
                assert(is_end_of_pipe(events[n - 1]));
            }
        } else if before.state is CancelAlarm {
            assert(action_at(start, events, n - 1) == RunAction::CancelAlarm);
        }
    }
}

/// The parent waits for the child only after it has read the pipe to its end, and has cancelled
/// the alarm in between. A child that still has something to write is never waited for.
pub proof fn waits_after_end_of_pipe(
    child: i32,
    timeout: Option<u32>,
    events: Seq<Event>,
    n: int,
)
    requires
        in_turn(ParentView::initial(child, timeout), events),
        0 <= n <= events.len(),
        action_at(ParentView::initial(child, timeout), events, n) is Wait,
    ensures
        exists|j: int, k: int|
            0 <= j < k < n && is_end_of_pipe(#[trigger] events[j]) && #[trigger] action_at(
                ParentView::initial(child, timeout),
                events,
                k,
            ) == RunAction::CancelAlarm,
{
    lemma_wait_follows_end(ParentView::initial(child, timeout), events, n);
}

/// Whether an action sends a signal.
pub open spec fn sends(action: RunAction, signal: KillSignal) -> bool {
    action matches RunAction::KillGroup { signal: s, .. } && s == signal
}

proof fn lemma_term(start: ParentView, events: Seq<Event>, n: int)
    requires
        start.state == ParentState::CloseWriteEnd,
        !start.term_sent,
        in_turn(start, events),
        0 <= n <= events.len(),
    ensures
        ({
            let p = at(start, events, n);
            &&& p.child == start.child
            &&& p.timeout == start.timeout
            &&& p.term_sent ==> exists|j: int|
                0 <= j < n && sends(#[trigger] action_at(start, events, j), KillSignal::Term)
            &&& (exists|j: int|
                0 <= j < n && sends(#[trigger] action_at(start, events, j), KillSignal::Term))
                ==> p.term_sent || p.state is Stopped
            &&& p.state is SayStillAlive || p.state is SendKill ==> p.term_sent
            &&& p.state is SayTimedOut || p.state is SendTerm ==> !p.term_sent && p.timeout is Some
            &&& p.state is ClearFlag || p.state is SetGrace ==> p.term_sent
        }),
    decreases n,
{
    if n > 0 {
        lemma_term(start, events, n - 1);
        let before = at(start, events, n - 1);
        assert(before.expects(events[n - 1]));
        if before.state is SendTerm {
            assert(sends(action_at(start, events, n - 1), KillSignal::Term));
        } else {
            assert(!sends(action_at(start, events, n - 1), KillSignal::Term));
        }
    }
}

/// Whether an event says that the alarm interrupted a `read`.
pub open spec fn is_alarm(event: Event) -> bool {
    match event {
        Event::Read { answer: SysResult::Failed(e), alarm, .. } => alarm && crate::sys::kind_of(e)
            == crate::sys::ErrnoKind::Interrupted,
        _ => false,
    }
}

/// Whether `SIGTERM` was sent, and then the alarm set for the grace period, at two places before
/// `n`.
pub open spec fn grace_began(
    start: ParentView,
    events: Seq<Event>,
    term: int,
    grace: int,
    n: int,
) -> bool {
    &&& 0 <= term < grace < n
    &&& sends(action_at(start, events, term), KillSignal::Term)
    &&& action_at(start, events, grace) == RunAction::SetAlarm(1)
}

proof fn lemma_grace(start: ParentView, events: Seq<Event>, n: int)
    requires
        start.state == ParentState::CloseWriteEnd,
        !start.term_sent,
        in_turn(start, events),
        0 <= n <= events.len(),
    ensures
        ({
            let p = at(start, events, n);
            &&& p.state is ClearFlag || p.state is SetGrace || (p.term_sent ==> exists|
                term: int,
                grace: int,
            | #[trigger]
                grace_began(start, events, term, grace, n))
            &&& p.state is SayStillAlive || p.state is SendKill ==> exists|
                term: int,
                grace: int,
                gone: int,
            |
                0 <= gone < n && #[trigger] grace_began(start, events, term, grace, gone)
                    && is_alarm(#[trigger] events[gone])
        }),
    decreases n,
{
    if n > 0 {
        lemma_grace(start, events, n - 1);
        lemma_term(start, events, n - 1);
        let before = at(start, events, n - 1);
        let p = at(start, events, n);
        assert(before.expects(events[n - 1]));
        if before.state is SetGrace {
            let term = choose|j: int|
                0 <= j < n - 1 && sends(#[trigger] action_at(start, events, j), KillSignal::Term);
            assert(grace_began(start, events, term, n - 1, n));
        } else if before.term_sent && !(before.state is ClearFlag) {
            let (term, grace) = choose|term: int, grace: int| #[trigger]
                grace_began(start, events, term, grace, n - 1);
            assert(grace_began(start, events, term, grace, n));
            if before.state is Reading && p.state is SayStillAlive {
                assert(is_alarm(events[n - 1]));
            }
        }
    }
}

/// `SIGKILL` is sent only when `SIGTERM` was sent, the alarm was then set for the grace period, and
/// an alarm then interrupted a `read`.
pub proof fn kill_comes_after_the_grace_period(
    child: i32,
    timeout: Option<u32>,
    events: Seq<Event>,
    n: int,
)
    requires
        in_turn(ParentView::initial(child, timeout), events),
        0 <= n <= events.len(),
        sends(action_at(ParentView::initial(child, timeout), events, n), KillSignal::Kill),
    ensures
        exists|term: int, grace: int, gone: int|
            0 <= gone < n && #[trigger] grace_began(
                ParentView::initial(child, timeout),
                events,
                term,
                grace,
                gone,
            ) && is_alarm(#[trigger] events[gone]),
{
    lemma_grace(ParentView::initial(child, timeout), events, n);
}

/// `SIGTERM` is sent at most once.
pub proof fn term_is_sent_once(
    child: i32,
    timeout: Option<u32>,
    events: Seq<Event>,
    m: int,
    n: int,
)
    requires
        in_turn(ParentView::initial(child, timeout), events),
        0 <= m <= events.len(),
        0 <= n <= events.len(),
        sends(action_at(ParentView::initial(child, timeout), events, m), KillSignal::Term),
        sends(action_at(ParentView::initial(child, timeout), events, n), KillSignal::Term),
    ensures
        m == n,
{
    let start = ParentView::initial(child, timeout);
    lemma_term(start, events, m);
    lemma_term(start, events, n);
    if m < n {
        assert(sends(action_at(start, events, m), KillSignal::Term));
    } else if n < m {
        assert(sends(action_at(start, events, n), KillSignal::Term));
    }
}

/// Signals go to the process group of the child, and only where a timeout was asked for.
pub proof fn signals_need_a_timeout(
    child: i32,
    timeout: Option<u32>,
    events: Seq<Event>,
    n: int,
)
    requires
        in_turn(ParentView::initial(child, timeout), events),
        0 <= n <= events.len(),
        action_at(ParentView::initial(child, timeout), events, n) is KillGroup,
    ensures
        timeout is Some,
        action_at(ParentView::initial(child, timeout), events, n) matches RunAction::KillGroup {
            pid,
            ..
        } && pid == child,
{
    let start = ParentView::initial(child, timeout);
    lemma_term(start, events, n);
    if at(start, events, n).state is SendKill {
        let j = choose|j: int|
            0 <= j < n && sends(#[trigger] action_at(start, events, j), KillSignal::Term);
        lemma_term(start, events, j);
    }
}

/// After `SIGTERM` was sent the parent takes the flag back, sets the alarm for the grace period and
/// goes on reading: what the child wrote before its end is not lost.
pub proof fn term_leaves_a_grace_period(
    child: i32,
    timeout: Option<u32>,
    events: Seq<Event>,
    n: int,
)
    requires
        in_turn(ParentView::initial(child, timeout), events),
        0 <= n,
        n + 3 <= events.len(),
        sends(action_at(ParentView::initial(child, timeout), events, n), KillSignal::Term),
        events[n] matches Event::Answered(SysResult::Done(_)),
    ensures
        action_at(ParentView::initial(child, timeout), events, n + 1) == RunAction::ClearFlag,
        action_at(ParentView::initial(child, timeout), events, n + 2) == RunAction::SetAlarm(1),
        action_at(ParentView::initial(child, timeout), events, n + 3) == RunAction::Read,
{
    let start = ParentView::initial(child, timeout);
    assert(at(start, events, n).expects(events[n]));
    assert(at(start, events, n + 1) == at(start, events, n).next(events[n]));
    assert(at(start, events, n + 1).expects(events[n + 1]));
    assert(at(start, events, n + 2) == at(start, events, n + 1).next(events[n + 1]));
    assert(at(start, events, n + 2).expects(events[n + 2]));
    assert(at(start, events, n + 3) == at(start, events, n + 2).next(events[n + 2]));
}

proof fn lemma_alarm_set(start: ParentView, events: Seq<Event>, n: int, secs: u32)
    requires
        start.state == ParentState::CloseWriteEnd,
        start.timeout == Some(secs),
        in_turn(start, events),
        0 <= n <= events.len(),
    ensures
        ({
            let p = at(start, events, n);
            &&& p.timeout == Some(secs)
            &&& p.state matches ParentState::InstallHandler { secs: s } ==> s == secs
            &&& p.state matches ParentState::SetAlarm { secs: s } ==> s == secs
            &&& p.state is CloseWriteEnd || p.state is InstallHandler || p.state is SetAlarm
                || p.state is Stopped || p.state is Faulted || exists|j: int|
                0 <= j < n && #[trigger] action_at(start, events, j) == RunAction::SetAlarm(secs)
        }),
    decreases n,
{
    if n > 0 {
        lemma_alarm_set(start, events, n - 1, secs);
        let before = at(start, events, n - 1);
        assert(before.expects(events[n - 1]));
        if before.state is SetAlarm {
            assert(action_at(start, events, n - 1) == RunAction::SetAlarm(secs));
        }
    }
}

/// Where a timeout was asked for, the alarm is set for it before the parent reads.
pub proof fn alarm_is_set_before_reading(
    child: i32,
    secs: u32,
    events: Seq<Event>,
    n: int,
)
    requires
        in_turn(ParentView::initial(child, Some(secs)), events),
        0 <= n <= events.len(),
        action_at(ParentView::initial(child, Some(secs)), events, n) == RunAction::Read,
    ensures
        exists|j: int|
            0 <= j < n && #[trigger] action_at(
                ParentView::initial(child, Some(secs)),
                events,
                j,
            ) == RunAction::SetAlarm(secs),
{
    lemma_alarm_set(ParentView::initial(child, Some(secs)), events, n, secs);
}

/// Whether an event says how the child ended.
pub open spec fn is_end(event: Event, end: ChildEnd) -> bool {
    event matches Event::Waited(e) && e == Some(end)
}

proof fn lemma_exit(start: ParentView, events: Seq<Event>, n: int)
    requires
        start.state == ParentState::CloseWriteEnd,
        in_turn(start, events),
        0 <= n <= events.len(),
    ensures
        at(start, events, n).state matches ParentState::SayEnd(end) ==> exists|j: int|
            0 <= j < n && is_end(#[trigger] events[j], end),
        at(start, events, n).state matches ParentState::Exiting(code) ==> exists|
            j: int,
            end: ChildEnd,
        |
            0 <= j < n && #[trigger] is_end(events[j], end) && code == crate::run::exit_code_of(
                end,
            ),
    decreases n,
{
    if n > 0 {
        lemma_exit(start, events, n - 1);
        let before = at(start, events, n - 1);
        assert(before.expects(events[n - 1]));
        match before.state {
            ParentState::Waiting => {
                if let Event::Waited(Some(end)) = events[n - 1] {
                    assert(is_end(events[n - 1], end));
                }
            },
            ParentState::SayEnd(end) => {
                let j = choose|j: int| 0 <= j < n - 1 && is_end(#[trigger] events[j], end);
                assert(is_end(events[j], end));
            },
            _ => {},
        }
    }
}

/// The runner exits as the child ended: with its status, with 128 and the number of the signal
/// that killed it, or with 1.
pub proof fn exits_as_the_child_ended(
    child: i32,
    timeout: Option<u32>,
    events: Seq<Event>,
    n: int,
    code: i32,
)
    requires
        in_turn(ParentView::initial(child, timeout), events),
        0 <= n <= events.len(),
        action_at(ParentView::initial(child, timeout), events, n) == RunAction::Exit(code),
    ensures
        exists|j: int, end: ChildEnd|
            0 <= j < n && #[trigger] is_end(events[j], end) && code == crate::run::exit_code_of(
                end,
            ),
{
    lemma_exit(ParentView::initial(child, timeout), events, n);
}

/// An interrupted read changes nothing unless the alarm has gone off.
pub proof fn interruption_without_alarm_is_ignored(p: ParentView, e: i32, buf: Seq<u8>)
    requires
        p.state is Reading,
        crate::sys::kind_of(e) == crate::sys::ErrnoKind::Interrupted,
    ensures
        p.next(Event::Read { answer: SysResult::Failed(e), buf, alarm: false }) == p,
{
}

// ---------------------------------------------------------------------------------------------
// The child
// ---------------------------------------------------------------------------------------------

/// The child after the first `n` answers.
pub open spec fn child_at(answers: Seq<SysResult>, n: int) -> ChildState
    decreases n,
{
    if n <= 0 {
        ChildState::CloseReadEnd
    } else {
        child_at(answers, n - 1).next_of(answers[n - 1])
    }
}

/// The child becomes the command only after its standard output goes into the pipe and it leads a
/// process group: the parent reads all that the command writes, and reaches all processes that the
/// command starts.
pub proof fn exec_follows_redirect_and_group(answers: Seq<SysResult>, n: int)
    requires
        0 <= n <= answers.len(),
        child_at(answers, n) == ChildState::Exec,
    ensures
        n == 3,
        child_at(answers, 1) == ChildState::RedirectStdout,
        answers[1] is Done,
        child_at(answers, 2) == ChildState::SetGroup,
        answers[2] is Done,
{
    reveal_with_fuel(child_at, 5);
    if n >= 4 {
        lemma_child_is_over(answers, n);
    }
}

proof fn lemma_child_is_over(answers: Seq<SysResult>, n: int)
    requires
        4 <= n <= answers.len(),
    ensures
        child_at(answers, n) == child_at(answers, 4),
        child_at(answers, n) is ExitNow || child_at(answers, n) is RedirectFailed,
    decreases n,
{
    reveal_with_fuel(child_at, 5);
    if n > 4 {
        lemma_child_is_over(answers, n - 1);
    }
}

/// A child that answers as often as it can has ended: with 125 if it could not lead a process
/// group, with 127 if there is no such command, and with 126 if the command could not be run. Only
/// a child that could not put its standard output into the pipe panics.
pub proof fn child_ends_with_a_reason(answers: Seq<SysResult>, n: int)
    requires
        4 <= n <= answers.len(),
    ensures
        child_at(answers, n) == (if answers[1] is Failed {
            ChildState::RedirectFailed
        } else if answers[2] is Failed {
            ChildState::ExitNow(125)
        } else {
            match answers[3] {
                SysResult::Failed(e) => ChildState::ExitNow(
                    if e == 2 || e == 20 {
                        127
                    } else {
                        126
                    },
                ),
                SysResult::Done(_) => ChildState::ExitNow(126),
            }
        }),
{
    reveal_with_fuel(child_at, 5);
    lemma_child_is_over(answers, n);
}

} // verus!

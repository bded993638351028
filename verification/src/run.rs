//! Running a command, capturing what it writes, and killing it when its time is up.
//!
//! The program forks. The child ([`ChildState`]) puts its standard output into a pipe and becomes
//! the command. The parent ([`Parent`]) reads the pipe to its end, first asks the child's process
//! group to terminate when the time is up, then kills it, and ends as the child ended.

use crate::signal::Signal;
use crate::sys::{errno_kind, ErrnoKind, SysResult};
use crate::text::parse_number;
use vstd::prelude::*;

verus! {

/// The exit code for a command that was not found.
pub const NOT_FOUND: i32 = 127;

/// The exit code for a command that was found and could not be run.
pub const NOT_RUNNABLE: i32 = 126;

/// The exit code for a runner that could not prepare the command.
pub const RUNNER_FAILED: i32 = 125;

/// The exit code for a runner that could not fork.
pub const FORK_FAILED: i32 = 1;

/// How many seconds a child has between the request to terminate and its end.
pub const GRACE_SECONDS: u32 = 1;

/// The size of the buffer for what the child writes.
pub const BUF_SIZE: usize = 8192;

// ---------------------------------------------------------------------------------------------
// The command line and the environment
// ---------------------------------------------------------------------------------------------

/// A command with its arguments, as `exec` wants them: the first argument is the command itself.
#[derive(Debug, PartialEq, Eq)]
pub struct Command {
    pub program: String,
    pub argv: Vec<String>,
}

/// Why a command line names no command that can be run.
#[derive(Clone, Copy, Debug, PartialEq, Eq, Structural)]
pub enum CommandError {
    /// There is no command.
    Missing,
    /// The command holds a NUL character, which ends a text for the kernel.
    NulInProgram,
    /// An argument holds a NUL character.
    NulInArgument,
}

impl CommandError {
    /// What the user is told.
    pub open spec fn message_of(self) -> Seq<char> {
        match self {
            CommandError::Missing => "[Error] 引数が足りません。"@,
            CommandError::NulInProgram =>
                "[Error] cmd を CString に変換できませんでした。"@,
            CommandError::NulInArgument =>
                "[Error] 引数を String に変換できませんでした。"@,
        }
    }

    /// Writes what the user is told.
    pub fn message(self) -> (m: &'static str)
        ensures
            m@ == self.message_of(),
    {
        match self {
            CommandError::Missing => "[Error] 引数が足りません。",
            CommandError::NulInProgram =>
                "[Error] cmd を CString に変換できませんでした。",
            CommandError::NulInArgument =>
                "[Error] 引数を String に変換できませんでした。",
        }
    }

    /// The code that the program exits with. A NUL character makes it panic instead.
    pub fn exit_code(self) -> (code: Option<i32>)
        ensures
            code == (if self is Missing {
                Some(1i32)
            } else {
                None
            }),
    {
        match self {
            CommandError::Missing => Some(1),
            _ => None,
        }
    }
}

fn has_nul(s: &str) -> (b: bool)
    ensures
        b == s@.contains('\0'),
{
    let n: usize = s.unicode_len();
    let mut i: usize = 0;
    for c in it: s.chars()
        invariant
            it.seq() == s@,
            i == it.index(),
            i <= n == s@.len(),
            forall|j: int| 0 <= j < i ==> s@[j] != '\0',
    {
        if c == '\0' {
            assert(s@[i as int] == '\0');
            return true;
        }
        i = i + 1;
    }
    false
}

/// Whether a text of a list from place `from` on holds a NUL character.
pub open spec fn nul_from(args: Seq<String>, from: int) -> bool {
    exists|i: int| from <= i < args.len() && (#[trigger] args[i])@.contains('\0')
}

/// Reads a command line: the command, then its arguments.
pub fn command(args: &[String]) -> (r: Result<Command, CommandError>)
    ensures
        r == Err::<Command, CommandError>(CommandError::Missing) <==> args@.len() == 0,
        r == Err::<Command, CommandError>(CommandError::NulInProgram) <==> args@.len() > 0
            && args@[0]@.contains('\0'),
        r == Err::<Command, CommandError>(CommandError::NulInArgument) <==> args@.len() > 0
            && !args@[0]@.contains('\0') && nul_from(args@, 1),
        r matches Ok(c) ==> {
            &&& c.program@ == args@[0]@
            &&& crate::text::texts(c.argv@) == crate::text::texts(args@)
        },
{
    if args.len() == 0 {
        return Err(CommandError::Missing);
    }
    if has_nul(args[0].as_str()) {
        return Err(CommandError::NulInProgram);
    }
    let mut argv: Vec<String> = Vec::new();
    argv.push(args[0].clone());
    let mut i: usize = 1;
    while i < args.len()
        invariant
            1 <= i <= args.len(),
            !args@[0]@.contains('\0'),
            argv.len() == i,
            forall|j: int| 0 <= j < i ==> (#[trigger] argv@[j])@ == args@[j]@,
            forall|j: int| 1 <= j < i ==> !(#[trigger] args@[j])@.contains('\0'),
        decreases args.len() - i,
    {
        if has_nul(args[i].as_str()) {
            assert(args@[i as int]@.contains('\0'));
            return Err(CommandError::NulInArgument);
        }
        argv.push(args[i].clone());
        i = i + 1;
    }
    assert(crate::text::texts(argv@) =~= crate::text::texts(args@));
    Ok(Command { program: args[0].clone(), argv })
}

/// What the environment says of a variable.
#[derive(Debug, PartialEq, Eq)]
pub enum EnvVar {
    Present(String),
    NotPresent,
    /// The value is no text.
    NotUnicode,
}

/// Why a variable gives no timeout.
#[derive(Clone, Copy, Debug, PartialEq, Eq, Structural)]
pub enum TimeoutError {
    /// The value is not a number of seconds.
    NotSeconds,
    /// The value is no text.
    NotUnicode,
}

impl TimeoutError {
    /// What the user is told.
    pub open spec fn message_of(self) -> Seq<char> {
        match self {
            TimeoutError::NotSeconds =>
                "[Error] MYRUN_TIMEOUT には秒数を指定してください。"@,
            TimeoutError::NotUnicode =>
                "[Error] ここは到達しないはず。MYRUN_TIMEOUT は Unicode なので。"@,
        }
    }

    /// Writes what the user is told.
    pub fn message(self) -> (m: &'static str)
        ensures
            m@ == self.message_of(),
    {
        match self {
            TimeoutError::NotSeconds =>
                "[Error] MYRUN_TIMEOUT には秒数を指定してください。",
            TimeoutError::NotUnicode =>
                "[Error] ここは到達しないはず。MYRUN_TIMEOUT は Unicode なので。",
        }
    }
}

/// A number of seconds as the user writes it.
pub open spec fn seconds_of(s: Seq<char>) -> Option<nat> {
    crate::text::number_of(s, 10, u32::MAX as nat)
}

/// Reads the timeout that a variable gives: none where the variable is unset.
pub fn get_timeout(var: &EnvVar) -> (r: Result<Option<u32>, TimeoutError>)
    ensures
        match *var {
            EnvVar::NotPresent => r == Ok::<Option<u32>, TimeoutError>(None),
            EnvVar::NotUnicode => r == Err::<Option<u32>, TimeoutError>(TimeoutError::NotUnicode),
            EnvVar::Present(s) => match r {
                Ok(t) => t is Some && seconds_of(s@) == Some(t->Some_0 as nat),
                Err(e) => e == TimeoutError::NotSeconds && seconds_of(s@) is None,
            },
        },
{
    match var {
        EnvVar::NotPresent => Ok(None),
        EnvVar::NotUnicode => Err(TimeoutError::NotUnicode),
        EnvVar::Present(s) => match parse_number(s.as_str(), 10, u32::MAX as u64) {
            Some(n) => Ok(Some(n as u32)),
            None => Err(TimeoutError::NotSeconds),
        },
    }
}

// ---------------------------------------------------------------------------------------------
// The child
// ---------------------------------------------------------------------------------------------

/// The exit code that tells the parent why `exec` failed.
pub open spec fn exec_exit_code_of(errno: i32) -> i32 {
    match crate::sys::kind_of(errno) {
        ErrnoKind::NoEntry => 127,
        ErrnoKind::NotDirectory => 127,
        _ => 126,
    }
}

/// Finds the exit code that tells the parent why `exec` failed.
pub fn exec_exit_code(errno: i32) -> (code: i32)
    ensures
        code == exec_exit_code_of(errno),
{
    match errno_kind(errno) {
        ErrnoKind::NoEntry => NOT_FOUND,
        ErrnoKind::NotDirectory => NOT_FOUND,
        _ => NOT_RUNNABLE,
    }
}

/// What the child does between `fork` and its end. It does nothing else: whatever takes a lock
/// could wait forever for a thread that `fork` left behind.
#[derive(Clone, Copy, Debug, PartialEq, Eq, Structural)]
pub enum ChildState {
    /// Close the end of the pipe that the parent reads.
    CloseReadEnd,
    /// Put the standard output into the pipe.
    RedirectStdout,
    /// Lead a new process group.
    SetGroup,
    /// Become the command.
    Exec,
    /// End at once, without flushing what was copied from the parent.
    ExitNow(i32),
    /// Panic: the standard output could not be put into the pipe.
    RedirectFailed,
}

impl ChildState {
    /// The state after an answer.
    pub open spec fn next_of(self, answer: SysResult) -> ChildState {
        match (self, answer) {
            (ChildState::CloseReadEnd, _) => ChildState::RedirectStdout,
            (ChildState::RedirectStdout, SysResult::Done(_)) => ChildState::SetGroup,
            (ChildState::RedirectStdout, SysResult::Failed(_)) => ChildState::RedirectFailed,
            (ChildState::SetGroup, SysResult::Done(_)) => ChildState::Exec,
            (ChildState::SetGroup, SysResult::Failed(_)) => ChildState::ExitNow(125),
            (ChildState::Exec, SysResult::Failed(e)) => ChildState::ExitNow(exec_exit_code_of(e)),
            (ChildState::Exec, SysResult::Done(_)) => ChildState::ExitNow(126),
            _ => self,
        }
    }

    /// Goes on with an answer. `exec` answers only if it failed.
    pub fn next(self, answer: SysResult) -> (s: ChildState)
        ensures
            s == self.next_of(answer),
    {
        match self {
            ChildState::CloseReadEnd => ChildState::RedirectStdout,
            ChildState::RedirectStdout => match answer {
                SysResult::Done(_) => ChildState::SetGroup,
                SysResult::Failed(_) => ChildState::RedirectFailed,
            },
            ChildState::SetGroup => match answer {
                SysResult::Done(_) => ChildState::Exec,
                SysResult::Failed(_) => ChildState::ExitNow(RUNNER_FAILED),
            },
            ChildState::Exec => match answer {
                SysResult::Done(_) => ChildState::ExitNow(NOT_RUNNABLE),
                SysResult::Failed(e) => ChildState::ExitNow(exec_exit_code(e)),
            },
            over => over,
        }
    }
}

// ---------------------------------------------------------------------------------------------
// The parent
// ---------------------------------------------------------------------------------------------

/// What a `read` from the pipe has come to.
#[derive(Clone, Copy, Debug, PartialEq, Eq, Structural)]
pub enum ReadResult {
    /// So many bytes were read; none at the end.
    Success(usize),
    /// The time is up.
    Timeout,
}

/// What follows from the answer to a `read`.
#[derive(Clone, Copy, Debug, PartialEq, Eq, Structural)]
pub enum ReadStep {
    /// Read again.
    Again,
    /// The read is over.
    Over(ReadResult),
    /// The read failed.
    Fail(i32),
}

/// What follows from the answer to a `read`, and from whether the alarm has gone off: an
/// interrupted read means that the time is up if the alarm has gone off, and nothing otherwise.
pub open spec fn read_step(answer: SysResult, alarm: bool) -> ReadStep {
    match answer {
        SysResult::Done(n) => ReadStep::Over(ReadResult::Success(n)),
        SysResult::Failed(e) => if crate::sys::kind_of(e) != ErrnoKind::Interrupted {
            ReadStep::Fail(e)
        } else if alarm {
            ReadStep::Over(ReadResult::Timeout)
        } else {
            ReadStep::Again
        },
    }
}

/// Decides what follows from the answer to a `read`.
pub fn read(answer: SysResult, alarm: bool) -> (s: ReadStep)
    ensures
        s == read_step(answer, alarm),
{
    match answer {
        SysResult::Done(n) => ReadStep::Over(ReadResult::Success(n)),
        SysResult::Failed(e) => match errno_kind(e) {
            ErrnoKind::Interrupted => if alarm {
                ReadStep::Over(ReadResult::Timeout)
            } else {
                ReadStep::Again
            },
            _ => ReadStep::Fail(e),
        },
    }
}

/// How a child ended.
#[derive(Clone, Copy, Debug, PartialEq, Eq, Structural)]
pub enum ChildEnd {
    /// It exited with a status.
    Exited { pid: i32, status: i32 },
    /// A signal killed it, which has this number on this machine.
    Signaled { pid: i32, signal: Signal, number: u8 },
    /// It did neither.
    Other,
}

/// What makes the parent panic.
#[derive(Clone, Copy, Debug, PartialEq, Eq, Structural)]
pub enum RunFault {
    /// A timeout of zero seconds: an alarm cannot be set for that.
    ZeroTimeout,
    /// The alarm has gone off though there is no timeout.
    NoTimeout,
    /// `read` counted more bytes than the buffer holds.
    ReadTooMuch,
    /// The end of the child could not be learned.
    WaitFailed,
}

impl RunFault {
    /// What the panic says.
    pub open spec fn message_of(self) -> Seq<char> {
        match self {
            RunFault::ZeroTimeout =>
                "passing 0 to `alarm::set` is not allowed, to cancel an alarm use `alarm::cancel`"@,
            RunFault::NoTimeout => "the alarm has gone off though there is no timeout"@,
            RunFault::ReadTooMuch => "read counted more bytes than the buffer holds"@,
            RunFault::WaitFailed => "[Error] waitpid が失敗しました。"@,
        }
    }

    /// Writes what the panic says.
    pub fn message(self) -> (m: &'static str)
        ensures
            m@ == self.message_of(),
    {
        match self {
            RunFault::ZeroTimeout =>
                "passing 0 to `alarm::set` is not allowed, to cancel an alarm use `alarm::cancel`",
            RunFault::NoTimeout => "the alarm has gone off though there is no timeout",
            RunFault::ReadTooMuch => "read counted more bytes than the buffer holds",
            RunFault::WaitFailed => "[Error] waitpid が失敗しました。",
        }
    }
}

/// The signals that the parent sends.
#[derive(Clone, Copy, Debug, PartialEq, Eq, Structural)]
pub enum KillSignal {
    /// `SIGTERM`, the request to terminate.
    Term,
    /// `SIGKILL`, which cannot be refused.
    Kill,
}

/// What the parent has to say.
#[derive(Clone, Copy, Debug, PartialEq, Eq, Structural)]
pub enum Message {
    /// What the child has written.
    Captured,
    /// The time is up.
    TimedOut { secs: u32, pid: i32 },
    /// The child is still there after the grace period.
    StillAlive { pid: i32 },
    /// The child exited.
    Exited { pid: i32, status: i32 },
    /// The child was killed.
    Killed { pid: i32, signal: Signal },
    /// The child ended in another way.
    Unexpected,
}

impl Message {
    /// Whether the message goes to the standard error; the others go to the standard output.
    pub fn to_stderr(self) -> (b: bool)
        ensures
            b == (self == Message::Unexpected),
    {
        match self {
            Message::Unexpected => true,
            _ => false,
        }
    }
}

/// What the parent does next.
#[derive(Clone, Copy, Debug, PartialEq, Eq, Structural)]
pub enum RunAction {
    /// Close the end of the pipe that the child writes: while it is open here, the pipe never ends.
    CloseWriteEnd,
    /// Have the alarm set a flag, and interrupt the `read` that waits.
    InstallHandler,
    /// Set the alarm for so many seconds from now.
    SetAlarm(u32),
    /// Read from the pipe.
    Read,
    /// Write a line.
    Say(Message),
    /// Send a signal to the process group of the child.
    KillGroup { pid: i32, signal: KillSignal },
    /// Take back the flag that the alarm has set.
    ClearFlag,
    /// Cancel the alarm.
    CancelAlarm,
    /// Learn how the child ended.
    Wait { pid: i32 },
    /// Exit with a code.
    Exit(i32),
    /// Give up with this error.
    Fail(i32),
    /// Panic.
    Abort(RunFault),
}

/// How far the parent has come.
#[derive(Clone, Copy, Debug, PartialEq, Eq, Structural)]
pub enum ParentState {
    CloseWriteEnd,
    InstallHandler { secs: u32 },
    SetAlarm { secs: u32 },
    Reading,
    SayTimedOut { secs: u32 },
    SendTerm,
    ClearFlag,
    SetGrace,
    SayStillAlive,
    SendKill,
    SayCaptured,
    CancelAlarm,
    Waiting,
    SayEnd(ChildEnd),
    Exiting(i32),
    Stopped(i32),
    Faulted(RunFault),
}

/// The exit code of the runner for an end of the child: the child's own, or 128 and the number of
/// the signal, or 1.
pub open spec fn exit_code_of(end: ChildEnd) -> i32 {
    match end {
        ChildEnd::Exited { pid, status } => status,
        ChildEnd::Signaled { number, .. } => (128 + number) as i32,
        ChildEnd::Other => 1,
    }
}

/// Finds the exit code of the runner for an end of the child.
pub fn exit_code(end: ChildEnd) -> (code: i32)
    ensures
        code == exit_code_of(end),
{
    match end {
        ChildEnd::Exited { pid, status } => status,
        ChildEnd::Signaled { number, .. } => 128 + number as i32,
        ChildEnd::Other => 1,
    }
}

/// Something that the parent has learned.
pub enum Event {
    /// The answer to anything but a `read` and a wait.
    Answered(SysResult),
    /// The answer to a `read`, what the buffer holds behind it, and whether the alarm has gone off.
    Read { answer: SysResult, buf: Seq<u8>, alarm: bool },
    /// How the child ended, unless that could not be learned.
    Waited(Option<ChildEnd>),
}

/// The parent.
#[verifier::ext_equal]
pub struct ParentView {
    pub child: i32,
    pub timeout: Option<u32>,
    /// Whether the child was asked to terminate.
    pub term_sent: bool,
    /// What the child has written.
    pub captured: Seq<u8>,
    pub state: ParentState,
}

impl ParentView {
    /// The parent right after `fork`.
    pub open spec fn initial(child: i32, timeout: Option<u32>) -> ParentView {
        ParentView {
            child,
            timeout,
            term_sent: false,
            captured: Seq::empty(),
            state: ParentState::CloseWriteEnd,
        }
    }

    /// The parent in another state.
    pub open spec fn to(self, state: ParentState) -> ParentView {
        ParentView { state, ..self }
    }

    /// What is to be done next.
    pub open spec fn action(self) -> RunAction {
        let pid = self.child;
        match self.state {
            ParentState::CloseWriteEnd => RunAction::CloseWriteEnd,
            ParentState::InstallHandler { secs } => RunAction::InstallHandler,
            ParentState::SetAlarm { secs } => RunAction::SetAlarm(secs),
            ParentState::Reading => RunAction::Read,
            ParentState::SayTimedOut { secs } => RunAction::Say(Message::TimedOut { secs, pid }),
            ParentState::SendTerm => RunAction::KillGroup { pid, signal: KillSignal::Term },
            ParentState::ClearFlag => RunAction::ClearFlag,
            ParentState::SetGrace => RunAction::SetAlarm(1),
            ParentState::SayStillAlive => RunAction::Say(Message::StillAlive { pid }),
            ParentState::SendKill => RunAction::KillGroup { pid, signal: KillSignal::Kill },
            ParentState::SayCaptured => RunAction::Say(Message::Captured),
            ParentState::CancelAlarm => RunAction::CancelAlarm,
            ParentState::Waiting => RunAction::Wait { pid },
            ParentState::SayEnd(ChildEnd::Exited { pid, status }) => RunAction::Say(
                Message::Exited { pid, status },
            ),
            ParentState::SayEnd(ChildEnd::Signaled { pid, signal, .. }) => RunAction::Say(
                Message::Killed { pid, signal },
            ),
            ParentState::SayEnd(ChildEnd::Other) => RunAction::Say(Message::Unexpected),
            ParentState::Exiting(code) => RunAction::Exit(code),
            ParentState::Stopped(e) => RunAction::Fail(e),
            ParentState::Faulted(f) => RunAction::Abort(f),
        }
    }

    /// The parent after a `read`: what was read is kept, the end of the pipe ends the reading, and
    /// a timeout brings first the request to terminate, then the kill.
    pub open spec fn after_read(self, answer: SysResult, buf: Seq<u8>, alarm: bool) -> ParentView {
        match read_step(answer, alarm) {
            ReadStep::Again => self,
            ReadStep::Fail(e) => self.to(ParentState::Stopped(e)),
            ReadStep::Over(ReadResult::Success(n)) => if n == 0 {
                self.to(ParentState::SayCaptured)
            } else if n <= buf.len() {
                ParentView { captured: self.captured + buf.take(n as int), ..self }
            } else {
                self.to(ParentState::Faulted(RunFault::ReadTooMuch))
            },
            ReadStep::Over(ReadResult::Timeout) => if self.term_sent {
                self.to(ParentState::SayStillAlive)
            } else {
                match self.timeout {
                    Some(secs) => self.to(ParentState::SayTimedOut { secs }),
                    None => self.to(ParentState::Faulted(RunFault::NoTimeout)),
                }
            },
        }
    }

    /// The parent after the answer to anything but a `read` and a wait.
    pub open spec fn after_answer(self, answer: SysResult) -> ParentView {
        match self.state {
            ParentState::CloseWriteEnd => match self.timeout {
                Some(secs) => self.to(ParentState::InstallHandler { secs }),
                None => self.to(ParentState::Reading),
            },
            ParentState::InstallHandler { secs } => match answer {
                SysResult::Failed(e) => self.to(ParentState::Stopped(e)),
                SysResult::Done(_) => if secs == 0 {
                    self.to(ParentState::Faulted(RunFault::ZeroTimeout))
                } else {
                    self.to(ParentState::SetAlarm { secs })
                },
            },
            ParentState::SetAlarm { secs } => self.to(ParentState::Reading),
            ParentState::SayTimedOut { secs } => self.to(ParentState::SendTerm),
            ParentState::SendTerm => match answer {
                SysResult::Failed(e) => self.to(ParentState::Stopped(e)),
                SysResult::Done(_) => ParentView {
                    term_sent: true,
                    state: ParentState::ClearFlag,
                    ..self
                },
            },
            ParentState::ClearFlag => self.to(ParentState::SetGrace),
            ParentState::SetGrace => self.to(ParentState::Reading),
            ParentState::SayStillAlive => self.to(ParentState::SendKill),
            ParentState::SendKill => match answer {
                SysResult::Failed(e) => self.to(ParentState::Stopped(e)),
                SysResult::Done(_) => self.to(ParentState::Reading),
            },
            ParentState::SayCaptured => self.to(ParentState::CancelAlarm),
            ParentState::CancelAlarm => self.to(ParentState::Waiting),
            ParentState::SayEnd(end) => self.to(ParentState::Exiting(exit_code_of(end))),
            _ => self,
        }
    }

    /// The parent after a wait.
    pub open spec fn after_wait(self, end: Option<ChildEnd>) -> ParentView {
        match end {
            Some(end) => self.to(ParentState::SayEnd(end)),
            None => self.to(ParentState::Faulted(RunFault::WaitFailed)),
        }
    }

    /// Whether an event tells what the next action asks for.
    pub open spec fn expects(self, event: Event) -> bool {
        match event {
            Event::Read { .. } => self.state is Reading,
            Event::Waited(_) => self.state is Waiting,
            Event::Answered(_) => !(self.state is Reading) && !(self.state is Waiting),
        }
    }

    /// The parent after an event.
    pub open spec fn next(self, event: Event) -> ParentView {
        match event {
            Event::Read { answer, buf, alarm } => self.after_read(answer, buf, alarm),
            Event::Waited(end) => self.after_wait(end),
            Event::Answered(answer) => self.after_answer(answer),
        }
    }
}

/// The parent: it tells what to do next and takes what has been learned.
pub struct Parent {
    child: i32,
    timeout: Option<u32>,
    term_sent: bool,
    captured: Vec<u8>,
    state: ParentState,
}

impl View for Parent {
    type V = ParentView;

    closed spec fn view(&self) -> ParentView {
        ParentView {
            child: self.child,
            timeout: self.timeout,
            term_sent: self.term_sent,
            captured: self.captured@,
            state: self.state,
        }
    }
}

impl Parent {
    /// The parent right after `fork`.
    pub fn new(child: i32, timeout: Option<u32>) -> (p: Parent)
        ensures
            p@ == ParentView::initial(child, timeout),
    {
        Parent {
            child,
            timeout,
            term_sent: false,
            captured: Vec::new(),
            state: ParentState::CloseWriteEnd,
        }
    }

    /// What the child has written so far.
    pub fn captured(&self) -> (bytes: &[u8])
        ensures
            bytes@ == self@.captured,
    {
        self.captured.as_slice()
    }

    /// What is to be done next.
    pub fn action(&self) -> (a: RunAction)
        ensures
            a == self@.action(),
    {
        let pid = self.child;
        match self.state {
            ParentState::CloseWriteEnd => RunAction::CloseWriteEnd,
            ParentState::InstallHandler { secs } => RunAction::InstallHandler,
            ParentState::SetAlarm { secs } => RunAction::SetAlarm(secs),
            ParentState::Reading => RunAction::Read,
            ParentState::SayTimedOut { secs } => RunAction::Say(Message::TimedOut { secs, pid }),
            ParentState::SendTerm => RunAction::KillGroup { pid, signal: KillSignal::Term },
            ParentState::ClearFlag => RunAction::ClearFlag,
            ParentState::SetGrace => RunAction::SetAlarm(GRACE_SECONDS),
            ParentState::SayStillAlive => RunAction::Say(Message::StillAlive { pid }),
            ParentState::SendKill => RunAction::KillGroup { pid, signal: KillSignal::Kill },
            ParentState::SayCaptured => RunAction::Say(Message::Captured),
            ParentState::CancelAlarm => RunAction::CancelAlarm,
            ParentState::Waiting => RunAction::Wait { pid },
            ParentState::SayEnd(ChildEnd::Exited { pid, status }) => RunAction::Say(
                Message::Exited { pid, status },
            ),
            ParentState::SayEnd(ChildEnd::Signaled { pid, signal, .. }) => RunAction::Say(
                Message::Killed { pid, signal },
            ),
            ParentState::SayEnd(ChildEnd::Other) => RunAction::Say(Message::Unexpected),
            ParentState::Exiting(code) => RunAction::Exit(code),
            ParentState::Stopped(e) => RunAction::Fail(e),
            ParentState::Faulted(f) => RunAction::Abort(f),
        }
    }

    /// Takes the answer to anything but a `read` and a wait.
    pub fn answer(&mut self, answer: SysResult)
        requires
            old(self)@.expects(Event::Answered(answer)),
        ensures
            final(self)@ == old(self)@.next(Event::Answered(answer)),
    {
        let next = match self.state {
            ParentState::CloseWriteEnd => match self.timeout {
                Some(secs) => ParentState::InstallHandler { secs },
                None => ParentState::Reading,
            },
            ParentState::InstallHandler { secs } => match answer {
                SysResult::Failed(e) => ParentState::Stopped(e),
                SysResult::Done(_) => if secs == 0 {
                    ParentState::Faulted(RunFault::ZeroTimeout)
                } else {
                    ParentState::SetAlarm { secs }
                },
            },
            ParentState::SetAlarm { secs } => ParentState::Reading,
            ParentState::SayTimedOut { secs } => ParentState::SendTerm,
            ParentState::SendTerm => match answer {
                SysResult::Failed(e) => ParentState::Stopped(e),
                SysResult::Done(_) => {
                    self.term_sent = true;
                    ParentState::ClearFlag
                },
            },
            ParentState::ClearFlag => ParentState::SetGrace,
            ParentState::SetGrace => ParentState::Reading,
            ParentState::SayStillAlive => ParentState::SendKill,
            ParentState::SendKill => match answer {
                SysResult::Failed(e) => ParentState::Stopped(e),
                SysResult::Done(_) => ParentState::Reading,
            },
            ParentState::SayCaptured => ParentState::CancelAlarm,
            ParentState::CancelAlarm => ParentState::Waiting,
            ParentState::SayEnd(end) => ParentState::Exiting(exit_code(end)),
            other => other,
        };
        self.state = next;
    }

    /// Takes the answer to a `read` into `buf`, and whether the alarm has gone off.
    pub fn answer_read(&mut self, answer: SysResult, buf: &[u8], alarm: bool)
        requires
            old(self)@.state is Reading,
        ensures
            final(self)@ == old(self)@.next(Event::Read { answer, buf: buf@, alarm }),
    {
        match read(answer, alarm) {
            ReadStep::Again => {},
            ReadStep::Fail(e) => {
                self.state = ParentState::Stopped(e);
            },
            ReadStep::Over(ReadResult::Success(n)) => {
                if n == 0 {
                    self.state = ParentState::SayCaptured;
                } else if n <= buf.len() {
                    let mut i: usize = 0;
                    let ghost before = *self;
                    while i < n
                        invariant
                            i <= n <= buf@.len(),
                            self@ == (ParentView {
                                captured: before@.captured + buf@.take(i as int),
                                ..before@
                            }),
                        decreases n - i,
                    {
                        self.captured.push(buf[i]);
                        i = i + 1;
                        assert(self@.captured =~= before@.captured + buf@.take(i as int));
                    }
                } else {
                    self.state = ParentState::Faulted(RunFault::ReadTooMuch);
                }
            },
            ReadStep::Over(ReadResult::Timeout) => {
                if self.term_sent {
                    self.state = ParentState::SayStillAlive;
                } else {
                    match self.timeout {
                        Some(secs) => {
                            self.state = ParentState::SayTimedOut { secs };
                        },
                        None => {
                            self.state = ParentState::Faulted(RunFault::NoTimeout);
                        },
                    }
                }
            },
        }
    }

    /// Takes how the child ended, or that this could not be learned.
    pub fn answer_wait(&mut self, end: Option<ChildEnd>)
        requires
            old(self)@.state is Waiting,
        ensures
            final(self)@ == old(self)@.next(Event::Waited(end)),
    {
        match end {
            Some(e) => {
                self.state = ParentState::SayEnd(e);
            },
            None => {
                self.state = ParentState::Faulted(RunFault::WaitFailed);
            },
        }
    }
}

} // verus!

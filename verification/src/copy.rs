//! Copying a file with `open`, `read` and `write` alone.
//!
//! A [`Copier`] says which system call comes next and takes the answer of the last one. It makes
//! up for what the calls may do: a `read` or a `write` that a signal interrupted is made again, and
//! a `write` that took less than it was given is followed by one for the rest.

use crate::sys::{errno_kind, ErrnoKind, SysResult};
use crate::text::parse_number;
use vstd::prelude::*;

verus! {

/// The size of the buffer where none is asked for.
pub const DEFAULT_BUF_SIZE: usize = 8192;

/// The exit code for a plain copy that failed.
pub const COPY_FAILED: i32 = 1;

/// The permissions of a file that the copy creates: read and write for the owner, read for others.
pub const TARGET_MODE: u32 = 0o644;

/// What to copy, and in pieces of how many bytes.
#[derive(Debug, PartialEq, Eq)]
pub struct CopyRequest {
    pub src: String,
    pub dst: String,
    pub buf_size: usize,
}

/// Why a command line asks for no copy.
#[derive(Clone, Copy, Debug, PartialEq, Eq, Structural)]
pub enum UsageError {
    /// The source or the target is missing.
    MissingArgument,
    /// The size of the buffer is not a number.
    BadBufSize,
    /// The size of the buffer is zero.
    ZeroBufSize,
}

impl UsageError {
    /// What the user is told.
    pub open spec fn message_of(self) -> Seq<char> {
        match self {
            UsageError::MissingArgument => "[Error] 引数不足"@,
            UsageError::BadBufSize =>
                "[Error] 第３引数にはバッファサイズ（bytes）を整数値で入力してください."@,
            UsageError::ZeroBufSize =>
                "[Error] 第３引数のバッファサイズは正の整数を入力してください."@,
        }
    }

    /// Writes what the user is told.
    pub fn message(self) -> (m: &'static str)
        ensures
            m@ == self.message_of(),
    {
        match self {
            UsageError::MissingArgument => "[Error] 引数不足",
            UsageError::BadBufSize =>
                "[Error] 第３引数にはバッファサイズ（bytes）を整数値で入力してください.",
            UsageError::ZeroBufSize =>
                "[Error] 第３引数のバッファサイズは正の整数を入力してください.",
        }
    }

    /// The code that the program exits with.
    pub fn exit_code(self) -> (code: i32)
        ensures
            code == 1,
    {
        1
    }
}

/// The size of a buffer as the user writes it.
pub open spec fn buf_size_of(s: Seq<char>) -> Option<nat> {
    crate::text::number_of(s, 10, usize::MAX as nat)
}

/// Reads a command line: a source, a target and, where it is given, the size of the buffer. What
/// follows is left aside.
pub fn copy_request(args: &[String]) -> (r: Result<CopyRequest, UsageError>)
    ensures
        r == Err::<CopyRequest, UsageError>(UsageError::MissingArgument) <==> args@.len() < 2,
        r == Err::<CopyRequest, UsageError>(UsageError::BadBufSize) <==> args@.len() > 2
            && buf_size_of(args@[2]@) is None,
        r == Err::<CopyRequest, UsageError>(UsageError::ZeroBufSize) <==> args@.len() > 2
            && buf_size_of(args@[2]@) == Some(0nat),
        r matches Ok(q) ==> {
            &&& q.src@ == args@[0]@
            &&& q.dst@ == args@[1]@
            &&& args@.len() == 2 ==> q.buf_size == DEFAULT_BUF_SIZE
            &&& args@.len() > 2 ==> buf_size_of(args@[2]@) == Some(q.buf_size as nat)
        },
{
    if args.len() < 2 {
        return Err(UsageError::MissingArgument);
    }
    let buf_size: usize = if args.len() > 2 {
        match parse_number(args[2].as_str(), 10, usize::MAX as u64) {
            Some(n) => n as usize,
            None => {
                return Err(UsageError::BadBufSize);
            },
        }
    } else {
        DEFAULT_BUF_SIZE
    };
    if buf_size == 0 {
        return Err(UsageError::ZeroBufSize);
    }
    Ok(CopyRequest { src: args[0].clone(), dst: args[1].clone(), buf_size })
}

/// Reads the command line of a plain copy: a source and a target. What follows is left aside.
pub fn plain_copy_request(args: &[String]) -> (r: Result<(String, String), UsageError>)
    ensures
        r is Ok <==> args@.len() >= 2,
        r matches Ok((src, dst)) ==> src@ == args@[0]@ && dst@ == args@[1]@,
        r matches Err(e) ==> e == UsageError::MissingArgument,
{
    if args.len() < 2 {
        return Err(UsageError::MissingArgument);
    }
    Ok((args[0].clone(), args[1].clone()))
}

/// The line for a plain copy that failed with an error that is shown as `error`.
pub open spec fn copy_failed_line_of(error: Seq<char>) -> Seq<char> {
    "[Error] ファイルコピーに失敗しました。"@ + error
}

/// Writes the line for a plain copy that failed with an error that is shown as `error`.
pub fn copy_failed_line(error: &str) -> (line: String)
    ensures
        line@ == copy_failed_line_of(error@),
{
    let mut line = "[Error] ファイルコピーに失敗しました。".to_owned();
    line.append(error);
    line
}

/// What no system call should ever answer.
#[derive(Clone, Copy, Debug, PartialEq, Eq, Structural)]
pub enum CopyFault {
    /// `read` counted more bytes than the buffer holds.
    ReadTooMuch,
    /// `write` took nothing. To write again could go on forever.
    WroteNothing,
    /// `write` counted more bytes than it was given.
    WroteTooMuch,
}

impl CopyFault {
    /// What the panic says.
    pub open spec fn message_of(self) -> Seq<char> {
        match self {
            CopyFault::ReadTooMuch => "read counted more bytes than the buffer holds"@,
            CopyFault::WroteNothing =>
                "0を返すことは想定されない。 `man 2 write` にも明記されていない。が、行儀の悪いデバイスドライバなどで発生した場合に、無限ループになるので明示的に落とす。std::io::Write::write_allでは独自のエラーを返している。"@,
            CopyFault::WroteTooMuch => "write counted more bytes than it was given"@,
        }
    }

    /// Writes what the panic says.
    pub fn message(self) -> (m: &'static str)
        ensures
            m@ == self.message_of(),
    {
        match self {
            CopyFault::ReadTooMuch => "read counted more bytes than the buffer holds",
            CopyFault::WroteNothing =>
                "0を返すことは想定されない。 `man 2 write` にも明記されていない。が、行儀の悪いデバイスドライバなどで発生した場合に、無限ループになるので明示的に落とす。std::io::Write::write_allでは独自のエラーを返している。",
            CopyFault::WroteTooMuch => "write counted more bytes than it was given",
        }
    }
}

/// How far a copy has come.
#[derive(Clone, Copy, Debug, PartialEq, Eq, Structural)]
pub enum CopyState {
    /// The source is to be opened.
    OpenSource,
    /// The target is to be opened.
    OpenTarget,
    /// The buffer is to be filled.
    Reading,
    /// The buffer holds `len` bytes, of which `written` have been written.
    Writing { len: usize, written: usize },
    /// Everything has been copied.
    Finished,
    /// A system call failed.
    Stopped(i32),
    /// A system call answered what it should not.
    Faulted(CopyFault),
}

/// What is to be done next.
#[derive(Clone, Copy, Debug, PartialEq, Eq, Structural)]
pub enum CopyAction {
    /// Open the source to read.
    OpenSource,
    /// Open the target to write: emptied, and created with the given mode where it is missing.
    OpenTarget { mode: u32 },
    /// Read at most `len` bytes into the buffer.
    Read { len: usize },
    /// Write the bytes of the buffer from `from` up to, not including, `to`.
    Write { from: usize, to: usize },
    /// The copy is complete.
    Finish,
    /// Give up with this error.
    Fail(i32),
    /// Stop the program: a system call answered what it should not.
    Abort(CopyFault),
}

impl CopyState {
    /// Whether the state is one of a copy through a buffer of that size.
    pub open spec fn fits(self, buf_size: usize) -> bool {
        self matches CopyState::Writing { len, written } ==> written < len <= buf_size
    }

    /// What is to be done in a state.
    pub open spec fn action(self, buf_size: usize) -> CopyAction {
        match self {
            CopyState::OpenSource => CopyAction::OpenSource,
            CopyState::OpenTarget => CopyAction::OpenTarget { mode: 0o644 },
            CopyState::Reading => CopyAction::Read { len: buf_size },
            CopyState::Writing { len, written } => CopyAction::Write { from: written, to: len },
            CopyState::Finished => CopyAction::Finish,
            CopyState::Stopped(e) => CopyAction::Fail(e),
            CopyState::Faulted(f) => CopyAction::Abort(f),
        }
    }

    /// The state after an answer to what was to be done. A copy that is over stays over.
    pub open spec fn next(self, answer: SysResult, buf_size: usize) -> CopyState {
        match self {
            CopyState::OpenSource => match answer {
                SysResult::Done(_) => CopyState::OpenTarget,
                SysResult::Failed(e) => CopyState::Stopped(e),
            },
            CopyState::OpenTarget => match answer {
                SysResult::Done(_) => CopyState::Reading,
                SysResult::Failed(e) => CopyState::Stopped(e),
            },
            CopyState::Reading => match retry_of(answer) {
                Retry::Again => self,
                Retry::Over(SysResult::Failed(e)) => CopyState::Stopped(e),
                Retry::Over(SysResult::Done(n)) => if n == 0 {
                    CopyState::Finished
                } else if n <= buf_size {
                    CopyState::Writing { len: n, written: 0 }
                } else {
                    CopyState::Faulted(CopyFault::ReadTooMuch)
                },
            },
            CopyState::Writing { len, written } => match write_step(len, written, answer) {
                WriteStep::Continue { written } => CopyState::Writing { len, written },
                WriteStep::Complete => CopyState::Reading,
                WriteStep::Fail(e) => CopyState::Stopped(e),
                WriteStep::Abort(f) => CopyState::Faulted(f),
            },
            _ => self,
        }
    }
}

/// Whether a `read` or a `write` is over.
#[derive(Clone, Copy, Debug, PartialEq, Eq, Structural)]
pub enum Retry {
    /// The call is to be made again.
    Again,
    /// The call is over, with this answer.
    Over(SysResult),
}

/// Whether a call is to be made again: only a call that a signal interrupted is.
pub open spec fn retry_of(answer: SysResult) -> Retry {
    match answer {
        SysResult::Failed(e) if crate::sys::kind_of(e) == ErrnoKind::Interrupted => Retry::Again,
        _ => Retry::Over(answer),
    }
}

/// Decides whether a `read` or a `write` is to be made again.
pub fn retry(answer: SysResult) -> (r: Retry)
    ensures
        r == retry_of(answer),
{
    match answer {
        SysResult::Failed(e) => match errno_kind(e) {
            ErrnoKind::Interrupted => Retry::Again,
            _ => Retry::Over(answer),
        },
        SysResult::Done(_) => Retry::Over(answer),
    }
}

/// What follows from the answer to a `write`.
#[derive(Clone, Copy, Debug, PartialEq, Eq, Structural)]
pub enum WriteStep {
    /// Write what follows the first `written` bytes.
    Continue { written: usize },
    /// Everything has been written.
    Complete,
    /// Give up with this error.
    Fail(i32),
    /// Stop the program.
    Abort(CopyFault),
}

/// What follows when `written` of `len` bytes had been written and the rest was given to `write`.
pub open spec fn write_step(len: usize, written: usize, answer: SysResult) -> WriteStep {
    match answer {
        SysResult::Failed(e) => if crate::sys::kind_of(e) == ErrnoKind::Interrupted {
            WriteStep::Continue { written }
        } else {
            WriteStep::Fail(e)
        },
        SysResult::Done(n) => if n == 0 {
            WriteStep::Abort(CopyFault::WroteNothing)
        } else if written + n == len {
            WriteStep::Complete
        } else if written + n < len {
            WriteStep::Continue { written: (written + n) as usize }
        } else {
            WriteStep::Abort(CopyFault::WroteTooMuch)
        },
    }
}

/// Decides how to go on until all of `len` bytes have been written.
pub fn write_all(len: usize, written: usize, answer: SysResult) -> (s: WriteStep)
    requires
        written <= len,
    ensures
        s == write_step(len, written, answer),
{
    match retry(answer) {
        Retry::Again => WriteStep::Continue { written },
        Retry::Over(SysResult::Failed(e)) => WriteStep::Fail(e),
        Retry::Over(SysResult::Done(n)) => if n == 0 {
            WriteStep::Abort(CopyFault::WroteNothing)
        } else if n == len - written {
            WriteStep::Complete
        } else if n < len - written {
            WriteStep::Continue { written: written + n }
        } else {
            WriteStep::Abort(CopyFault::WroteTooMuch)
        },
    }
}

/// A copy in progress.
pub struct Copier {
    buf_size: usize,
    state: CopyState,
}

impl Copier {
    #[verifier::type_invariant]
    spec fn inv(self) -> bool {
        self.state.fits(self.buf_size)
    }

    /// The size of the buffer.
    pub closed spec fn size(self) -> usize {
        self.buf_size
    }

    /// How far the copy has come.
    pub closed spec fn at(self) -> CopyState {
        self.state
    }

    /// A copy through a buffer of that size, before anything was done.
    pub fn new(buf_size: usize) -> (c: Copier)
        ensures
            c.size() == buf_size,
            c.at() == CopyState::OpenSource,
    {
        Copier { buf_size, state: CopyState::OpenSource }
    }

    /// How far the copy has come.
    pub fn state(&self) -> (s: CopyState)
        ensures
            s == self.at(),
            s.fits(self.size()),
    {
        proof {
            use_type_invariant(self);
        }
        self.state
    }

    /// What is to be done next.
    pub fn action(&self) -> (a: CopyAction)
        ensures
            a == self.at().action(self.size()),
            a matches CopyAction::Write { from, to } ==> from < to <= self.size(),
    {
        proof {
            use_type_invariant(self);
        }
        match self.state {
            CopyState::OpenSource => CopyAction::OpenSource,
            CopyState::OpenTarget => CopyAction::OpenTarget { mode: TARGET_MODE },
            CopyState::Reading => CopyAction::Read { len: self.buf_size },
            CopyState::Writing { len, written } => CopyAction::Write { from: written, to: len },
            CopyState::Finished => CopyAction::Finish,
            CopyState::Stopped(e) => CopyAction::Fail(e),
            CopyState::Faulted(f) => CopyAction::Abort(f),
        }
    }

    /// Takes the answer to what was to be done.
    pub fn answer(&mut self, answer: SysResult)
        ensures
            final(self).size() == old(self).size(),
            final(self).at() == old(self).at().next(answer, old(self).size()),
    {
        proof {
            use_type_invariant(&*self);
        }
        let next = match self.state {
            CopyState::OpenSource => match answer {
                SysResult::Done(_) => CopyState::OpenTarget,
                SysResult::Failed(e) => CopyState::Stopped(e),
            },
            CopyState::OpenTarget => match answer {
                SysResult::Done(_) => CopyState::Reading,
                SysResult::Failed(e) => CopyState::Stopped(e),
            },
            CopyState::Reading => match retry(answer) {
                Retry::Again => CopyState::Reading,
                Retry::Over(SysResult::Failed(e)) => CopyState::Stopped(e),
                Retry::Over(SysResult::Done(n)) => if n == 0 {
                    CopyState::Finished
                } else if n <= self.buf_size {
                    CopyState::Writing { len: n, written: 0 }
                } else {
                    CopyState::Faulted(CopyFault::ReadTooMuch)
                },
            },
            CopyState::Writing { len, written } => match write_all(len, written, answer) {
                WriteStep::Continue { written } => CopyState::Writing { len, written },
                WriteStep::Complete => CopyState::Reading,
                WriteStep::Fail(e) => CopyState::Stopped(e),
                WriteStep::Abort(f) => CopyState::Faulted(f),
            },
            over => over,
        };
        self.state = next;
    }
}

/// One answer in the course of a copy, with the bytes that a `read` put into the buffer.
pub struct Answer {
    pub result: SysResult,
    pub data: Seq<u8>,
}

/// A copy and what it has moved.
pub struct Progress {
    pub state: CopyState,
    /// What the buffer holds.
    pub buf: Seq<u8>,
    /// Every byte that `read` has delivered.
    pub input: Seq<u8>,
    /// Every byte that `write` has taken.
    pub output: Seq<u8>,
}

impl Progress {
    /// Before anything was done.
    pub open spec fn initial(buf_size: usize) -> Progress {
        Progress {
            state: CopyState::OpenSource,
            buf: Seq::new(buf_size as nat, |i: int| 0u8),
            input: Seq::empty(),
            output: Seq::empty(),
        }
    }

    /// What an answer to the next action moves: a `read` fills the front of the buffer, and a
    /// `write` takes bytes from where it was told to start. A call that fails moves nothing.
    pub open spec fn next(self, answer: Answer, buf_size: usize) -> Progress {
        let state = self.state.next(answer.result, buf_size);
        match (self.state.action(buf_size), answer.result) {
            (CopyAction::Read { len }, SysResult::Done(n)) if n <= len => Progress {
                state,
                buf: answer.data + self.buf.skip(n as int),
                input: self.input + answer.data,
                output: self.output,
            },
            (CopyAction::Write { from, to }, SysResult::Done(n)) if from + n <= to => Progress {
                state,
                buf: self.buf,
                input: self.input,
                output: self.output + self.buf.subrange(from as int, from + n),
            },
            _ => Progress { state, buf: self.buf, input: self.input, output: self.output },
        }
    }

    /// After a run of answers.
    pub open spec fn after(answers: Seq<Answer>, buf_size: usize) -> Progress
        decreases answers.len(),
    {
        if answers.len() == 0 {
            Progress::initial(buf_size)
        } else {
            Progress::after(answers.drop_last(), buf_size).next(answers.last(), buf_size)
        }
    }

    /// What has been read and not yet written is what the buffer still holds for `write`.
    pub open spec fn accounted(self, buf_size: usize) -> bool {
        &&& self.buf.len() == buf_size
        &&& self.state.fits(buf_size)
        &&& match self.state {
            CopyState::Writing { len, written } => self.input == self.output + self.buf.subrange(
                written as int,
                len as int,
            ),
            CopyState::Stopped(_) => self.output.is_prefix_of(self.input),
            CopyState::Faulted(_) => self.output.is_prefix_of(self.input),
            _ => self.output == self.input,
        }
    }
}

/// Whether every `read` of a run delivers as many bytes as it counts.
pub open spec fn honest(answers: Seq<Answer>, buf_size: usize) -> bool
    decreases answers.len(),
{
    answers.len() > 0 ==> {
        &&& honest(answers.drop_last(), buf_size)
        &&& Progress::after(answers.drop_last(), buf_size).state.action(buf_size) is Read ==> (
        answers.last().result matches SysResult::Done(n) ==> answers.last().data.len() == n)
    }
}

/// No byte is lost, doubled or put in another place: at every moment of a copy, what was written
/// and what the buffer still holds for `write` are, together, what was read.
pub proof fn copy_accounts_for_every_byte(answers: Seq<Answer>, buf_size: usize)
    requires
        honest(answers, buf_size),
    ensures
        Progress::after(answers, buf_size).accounted(buf_size),
    decreases answers.len(),
{
    if answers.len() > 0 {
        let early = answers.drop_last();
        copy_accounts_for_every_byte(early, buf_size);
        let p = Progress::after(early, buf_size);
        let a = answers.last();
        let q = p.next(a, buf_size);
        match (p.state, a.result) {
            (CopyState::Reading, SysResult::Done(n)) => {
                if n <= buf_size {
                    assert(q.buf.len() == buf_size);
                    if n == 0 {
                        assert(a.data =~= Seq::empty());
                        assert(q.input =~= q.output);
                    } else {
                        assert(q.buf.subrange(0, n as int) =~= a.data);
                    }
                } else {
                    assert(q.output =~= q.input.take(q.output.len() as int));
                }
            },
            (CopyState::Writing { len, written }, SysResult::Done(n)) => {
                if written + n <= len {
                    let w = written as int;
                    assert(p.buf.subrange(w, len as int) =~= p.buf.subrange(w, w + n)
                        + p.buf.subrange(w + n, len as int));
                    assert(q.output + p.buf.subrange(w + n, len as int) =~= p.output
                        + p.buf.subrange(w, len as int));
                    if written + n == len {
                        assert(p.buf.subrange(w + n, len as int) =~= Seq::empty());
                        assert(q.output =~= q.input);
                    }
                    if n == 0 {
                        assert(q.output =~= p.output);
                        assert(q.output =~= q.input.take(q.output.len() as int));
                    }
                } else {
                    assert(q.output =~= q.input.take(q.output.len() as int));
                }
            },
            _ => {
                assert(p.output.is_prefix_of(p.input)) by {
                    assert(p.output =~= p.input.take(p.output.len() as int));
                }
            },
        }
    }
}

/// A copy that finishes has written exactly what it read.
pub proof fn finished_copy_is_complete(answers: Seq<Answer>, buf_size: usize)
    requires
        honest(answers, buf_size),
        Progress::after(answers, buf_size).state == CopyState::Finished,
    ensures
        Progress::after(answers, buf_size).output == Progress::after(answers, buf_size).input,
{
    copy_accounts_for_every_byte(answers, buf_size);
}

/// However a copy ends, what it has written is the beginning of what it has read.
pub proof fn output_is_a_prefix_of_input(answers: Seq<Answer>, buf_size: usize)
    requires
        honest(answers, buf_size),
    ensures
        Progress::after(answers, buf_size).output.is_prefix_of(
            Progress::after(answers, buf_size).input,
        ),
{
    copy_accounts_for_every_byte(answers, buf_size);
    let p = Progress::after(answers, buf_size);
    assert(p.output =~= p.input.take(p.output.len() as int));
}

/// A signal changes nothing: a `read` or a `write` that was interrupted is made again, in the same
/// state and with the same bytes.
pub proof fn interrupted_call_is_made_again(p: Progress, answer: Answer, buf_size: usize)
    requires
        p.state is Reading || p.state is Writing,
        answer.result matches SysResult::Failed(e) && crate::sys::kind_of(e)
            == ErrnoKind::Interrupted,
    ensures
        p.next(answer, buf_size) == p,
{
}

/// Every other error ends the copy, and so does any error of an `open`; the copy reports that
/// error.
pub proof fn other_errors_end_the_copy(state: CopyState, e: i32, buf_size: usize)
    requires
        state is OpenSource || state is OpenTarget || state is Reading || state is Writing,
        state is OpenSource || state is OpenTarget || crate::sys::kind_of(e)
            != ErrnoKind::Interrupted,
    ensures
        state.next(SysResult::Failed(e), buf_size).action(buf_size) == CopyAction::Fail(e),
{
}

/// A `write` that takes anything brings the copy on: less is left, or the buffer is empty.
pub proof fn write_brings_the_copy_on(len: usize, written: usize, n: usize, buf_size: usize)
    requires
        written < len <= buf_size,
        0 < n <= len - written,
    ensures
        match (CopyState::Writing { len, written }).next(SysResult::Done(n), buf_size) {
            CopyState::Writing { len: l, written: w } => l == len && w == written + n && w < l,
            s => s == CopyState::Reading && written + n == len,
        },
{
}

} // verus!

use oslearn::run::{
    command, exec_exit_code, exit_code, get_timeout, read, ChildEnd, ChildState, CommandError,
    EnvVar, KillSignal, Message, Parent, ReadResult, ReadStep, RunAction, RunFault, TimeoutError,
    FORK_FAILED,
};
use oslearn::run_lines::{
    captured_line, captured_report, exited_line, fork_failed_line, killed_line, still_alive_line,
    timeout_line, unexpected_line,
};
use oslearn::signal::Signal;
use oslearn::sys::SysResult;

const EINTR: SysResult = SysResult::Failed(4);

fn args(a: &[&str]) -> Vec<String> {
    a.iter().map(|s| s.to_string()).collect()
}

fn present(s: &str) -> EnvVar {
    EnvVar::Present(s.to_string())
}

#[test]
fn first_argument_is_the_command_itself() {
    let c = command(&args(&["sh", "-c", "exit 3"])).unwrap();
    assert_eq!(c.program, "sh");
    assert_eq!(c.argv, vec!["sh", "-c", "exit 3"]);
}

#[test]
fn commands_that_cannot_be_run_are_told_apart() {
    assert_eq!(command(&[]), Err(CommandError::Missing));
    assert_eq!(command(&args(&["a\0b", "c\0"])), Err(CommandError::NulInProgram));
    assert_eq!(command(&args(&["a", "b", "\0"])), Err(CommandError::NulInArgument));
    assert_eq!(CommandError::Missing.message(), "[Error] 引数が足りません。");
    assert_eq!(
        CommandError::NulInProgram.message(),
        "[Error] cmd を CString に変換できませんでした。"
    );
    assert_eq!(
        CommandError::NulInArgument.message(),
        "[Error] 引数を String に変換できませんでした。"
    );
}

#[test]
fn timeout_is_a_number_of_seconds() {
    assert_eq!(get_timeout(&EnvVar::NotPresent), Ok(None));
    assert_eq!(get_timeout(&present("2")), Ok(Some(2)));
    assert_eq!(get_timeout(&present("0")), Ok(Some(0)));
    assert_eq!(get_timeout(&present("4294967295")), Ok(Some(u32::MAX)));
    for s in ["", "2s", "-1", "1.5", "4294967296"] {
        assert_eq!(get_timeout(&present(s)), Err(TimeoutError::NotSeconds));
    }
    assert_eq!(get_timeout(&EnvVar::NotUnicode), Err(TimeoutError::NotUnicode));
    assert_eq!(
        TimeoutError::NotSeconds.message(),
        "[Error] MYRUN_TIMEOUT には秒数を指定してください。"
    );
    assert_eq!(
        TimeoutError::NotUnicode.message(),
        "[Error] ここは到達しないはず。MYRUN_TIMEOUT は Unicode なので。"
    );
}

#[test]
fn missing_commands_give_127_and_others_126() {
    assert_eq!(exec_exit_code(2), 127);
    assert_eq!(exec_exit_code(20), 127);
    for e in [1, 4, 7, 8, 13, 21, 26, 36, 40, 9999, -1, 0] {
        assert_eq!(exec_exit_code(e), 126);
    }
}

#[test]
fn child_prepares_and_becomes_the_command() {
    let ok = SysResult::Done(0);
    let s = ChildState::CloseReadEnd.next(ok);
    assert_eq!(s, ChildState::RedirectStdout);
    assert_eq!(s.next(SysResult::Failed(9)), ChildState::RedirectFailed);
    let s = s.next(ok);
    assert_eq!(s, ChildState::SetGroup);
    assert_eq!(s.next(SysResult::Failed(1)), ChildState::ExitNow(125));
    let s = s.next(ok);
    assert_eq!(s, ChildState::Exec);
    assert_eq!(s.next(SysResult::Failed(2)), ChildState::ExitNow(127));
    assert_eq!(s.next(SysResult::Failed(13)), ChildState::ExitNow(126));
    assert_eq!(s.next(SysResult::Failed(2)).next(ok), ChildState::ExitNow(127));
}

#[test]
fn interrupted_read_times_out_only_after_the_alarm() {
    assert_eq!(read(EINTR, false), ReadStep::Again);
    assert_eq!(read(EINTR, true), ReadStep::Over(ReadResult::Timeout));
    assert_eq!(read(SysResult::Failed(9), true), ReadStep::Fail(9));
    assert_eq!(read(SysResult::Done(5), true), ReadStep::Over(ReadResult::Success(5)));
    assert_eq!(read(SysResult::Done(0), false), ReadStep::Over(ReadResult::Success(0)));
}

#[test]
fn exit_code_follows_the_child() {
    assert_eq!(exit_code(ChildEnd::Exited { pid: 9, status: 3 }), 3);
    assert_eq!(exit_code(ChildEnd::Signaled { pid: 9, signal: Signal::Segv, number: 11 }), 139);
    assert_eq!(exit_code(ChildEnd::Signaled { pid: 9, signal: Signal::Term, number: 15 }), 143);
    assert_eq!(exit_code(ChildEnd::Signaled { pid: 9, signal: Signal::Kill, number: 9 }), 137);
    assert_eq!(exit_code(ChildEnd::Other), 1);
}

fn ok(p: &mut Parent) {
    p.answer(SysResult::Done(0));
}

#[test]
fn echo_is_captured_to_the_end() {
    let mut p = Parent::new(42, None);
    assert_eq!(p.action(), RunAction::CloseWriteEnd);
    ok(&mut p);
    assert_eq!(p.action(), RunAction::Read);
    let mut buf = [0u8; 8];
    buf[..6].copy_from_slice(b"hello\n");
    p.answer_read(SysResult::Done(6), &buf, false);
    assert_eq!(p.captured(), b"hello\n");
    assert_eq!(p.action(), RunAction::Read);
    p.answer_read(SysResult::Done(0), &buf, false);
    assert_eq!(p.action(), RunAction::Say(Message::Captured));
    assert_eq!(
        p.line(Message::Captured, ""),
        "[myrun] captured 6 bytes: \"hello\\n\""
    );
    ok(&mut p);
    assert_eq!(p.action(), RunAction::CancelAlarm);
    ok(&mut p);
    assert_eq!(p.action(), RunAction::Wait { pid: 42 });
    p.answer_wait(Some(ChildEnd::Exited { pid: 42, status: 0 }));
    let m = Message::Exited { pid: 42, status: 0 };
    assert_eq!(p.action(), RunAction::Say(m));
    assert_eq!(p.line(m, ""), "[myrun] pid=42 exited with 0");
    ok(&mut p);
    assert_eq!(p.action(), RunAction::Exit(0));
}

/// A parent that reads, with a timeout of two seconds.
fn reading() -> Parent {
    let mut p = Parent::new(20127, Some(2));
    assert_eq!(p.action(), RunAction::CloseWriteEnd);
    ok(&mut p);
    assert_eq!(p.action(), RunAction::InstallHandler);
    ok(&mut p);
    assert_eq!(p.action(), RunAction::SetAlarm(2));
    ok(&mut p);
    assert_eq!(p.action(), RunAction::Read);
    p
}

/// The same parent after the alarm has gone off once.
fn terminated() -> Parent {
    let mut p = reading();
    p.answer_read(EINTR, &[], true);
    let m = Message::TimedOut { secs: 2, pid: 20127 };
    assert_eq!(p.action(), RunAction::Say(m));
    assert_eq!(
        p.line(m, ""),
        "[myrun] timeout (2s), sending SIGTERM to pid=20127"
    );
    ok(&mut p);
    assert_eq!(
        p.action(),
        RunAction::KillGroup { pid: 20127, signal: KillSignal::Term }
    );
    ok(&mut p);
    assert_eq!(p.action(), RunAction::ClearFlag);
    ok(&mut p);
    assert_eq!(p.action(), RunAction::SetAlarm(1));
    ok(&mut p);
    assert_eq!(p.action(), RunAction::Read);
    p
}

#[test]
fn timeout_terminates_and_keeps_what_was_written() {
    let mut p = reading();
    p.answer_read(SysResult::Done(8), b"partial\n", false);
    p.answer_read(EINTR, &[], true);
    ok(&mut p);
    ok(&mut p);
    ok(&mut p);
    ok(&mut p);
    assert_eq!(p.action(), RunAction::Read);
    p.answer_read(SysResult::Done(0), &[], false);
    assert_eq!(
        p.line(Message::Captured, ""),
        "[myrun] captured 8 bytes: \"partial\\n\""
    );
    ok(&mut p);
    ok(&mut p);
    p.answer_wait(Some(ChildEnd::Signaled { pid: 20127, signal: Signal::Term, number: 15 }));
    let m = Message::Killed { pid: 20127, signal: Signal::Term };
    assert_eq!(p.action(), RunAction::Say(m));
    assert_eq!(
        p.line(m, ""),
        "[myrun] pid=20127 killed by signal SIGTERM"
    );
    ok(&mut p);
    assert_eq!(p.action(), RunAction::Exit(143));
}

#[test]
fn second_alarm_kills() {
    let mut p = terminated();
    p.answer_read(EINTR, &[], false);
    assert_eq!(p.action(), RunAction::Read);
    p.answer_read(EINTR, &[], true);
    let m = Message::StillAlive { pid: 20127 };
    assert_eq!(p.action(), RunAction::Say(m));
    assert_eq!(
        p.line(m, ""),
        "[myrun] still alive after 1s, sending SIGKILL to pid=20127"
    );
    ok(&mut p);
    assert_eq!(
        p.action(),
        RunAction::KillGroup { pid: 20127, signal: KillSignal::Kill }
    );
    ok(&mut p);
    assert_eq!(p.action(), RunAction::Read);
    p.answer_read(SysResult::Done(0), &[], true);
    ok(&mut p);
    ok(&mut p);
    p.answer_wait(Some(ChildEnd::Signaled { pid: 20127, signal: Signal::Kill, number: 9 }));
    ok(&mut p);
    assert_eq!(p.action(), RunAction::Exit(137));
}

#[test]
fn failing_calls_end_the_parent() {
    let mut p = Parent::new(7, Some(2));
    ok(&mut p);
    p.answer(SysResult::Failed(22));
    assert_eq!(p.action(), RunAction::Fail(22));
    let mut p = reading();
    p.answer_read(SysResult::Failed(5), &[], false);
    assert_eq!(p.action(), RunAction::Fail(5));
    let mut p = reading();
    p.answer_read(EINTR, &[], true);
    ok(&mut p);
    p.answer(SysResult::Failed(3));
    assert_eq!(p.action(), RunAction::Fail(3));
    let mut p = terminated();
    p.answer_read(EINTR, &[], true);
    ok(&mut p);
    p.answer(SysResult::Failed(1));
    assert_eq!(p.action(), RunAction::Fail(1));
}

#[test]
fn faults_are_told_apart() {
    let mut p = Parent::new(7, Some(0));
    ok(&mut p);
    ok(&mut p);
    assert_eq!(p.action(), RunAction::Abort(RunFault::ZeroTimeout));
    let mut p = Parent::new(7, None);
    ok(&mut p);
    p.answer_read(EINTR, &[], true);
    assert_eq!(p.action(), RunAction::Abort(RunFault::NoTimeout));
    let mut p = reading();
    p.answer_read(SysResult::Done(3), &[1, 2], false);
    assert_eq!(p.action(), RunAction::Abort(RunFault::ReadTooMuch));
    let mut p = reading();
    p.answer_read(SysResult::Done(0), &[], false);
    ok(&mut p);
    ok(&mut p);
    p.answer_wait(None);
    assert_eq!(p.action(), RunAction::Abort(RunFault::WaitFailed));
}

#[test]
fn unexpected_end_exits_with_1() {
    let mut p = reading();
    p.answer_read(SysResult::Done(0), &[], false);
    ok(&mut p);
    ok(&mut p);
    p.answer_wait(Some(ChildEnd::Other));
    assert_eq!(p.action(), RunAction::Say(Message::Unexpected));
    assert_eq!(
        p.line(Message::Unexpected, "StillAlive"),
        "[Error] 子プロセスが exit 以外の結果を示しました: StillAlive"
    );
    ok(&mut p);
    assert_eq!(p.action(), RunAction::Exit(1));
}

#[test]
fn large_output_is_captured_in_order() {
    let mut p = Parent::new(1, None);
    ok(&mut p);
    let mut whole: Vec<u8> = Vec::new();
    let mut left = 72570usize;
    while left > 0 {
        let n = left.min(8192);
        let buf: Vec<u8> = (0..8192).map(|i| ((whole.len() + i) % 253) as u8).collect();
        whole.extend_from_slice(&buf[..n]);
        p.answer_read(SysResult::Done(n), &buf, false);
        left -= n;
    }
    assert_eq!(p.captured().len(), 72570);
    assert_eq!(p.captured(), &whole[..]);
}

#[test]
fn signals_are_named() {
    let p = Parent::new(1, None);
    let names = [
        (Signal::Hup, "SIGHUP"),
        (Signal::Int, "SIGINT"),
        (Signal::Quit, "SIGQUIT"),
        (Signal::Ill, "SIGILL"),
        (Signal::Trap, "SIGTRAP"),
        (Signal::Abrt, "SIGABRT"),
        (Signal::Bus, "SIGBUS"),
        (Signal::Fpe, "SIGFPE"),
        (Signal::Kill, "SIGKILL"),
        (Signal::Usr1, "SIGUSR1"),
        (Signal::Segv, "SIGSEGV"),
        (Signal::Usr2, "SIGUSR2"),
        (Signal::Pipe, "SIGPIPE"),
        (Signal::Alrm, "SIGALRM"),
        (Signal::Term, "SIGTERM"),
        (Signal::Stkflt, "SIGSTKFLT"),
        (Signal::Chld, "SIGCHLD"),
        (Signal::Cont, "SIGCONT"),
        (Signal::Stop, "SIGSTOP"),
        (Signal::Tstp, "SIGTSTP"),
        (Signal::Ttin, "SIGTTIN"),
        (Signal::Ttou, "SIGTTOU"),
        (Signal::Urg, "SIGURG"),
        (Signal::Xcpu, "SIGXCPU"),
        (Signal::Xfsz, "SIGXFSZ"),
        (Signal::Vtalrm, "SIGVTALRM"),
        (Signal::Prof, "SIGPROF"),
        (Signal::Winch, "SIGWINCH"),
        (Signal::Io, "SIGIO"),
        (Signal::Pwr, "SIGPWR"),
        (Signal::Sys, "SIGSYS"),
    ];
    for (signal, name) in names {
        assert_eq!(
            p.line(Message::Killed { pid: 5, signal }, ""),
            format!("[myrun] pid=5 killed by signal {}", name)
        );
        assert!(name.parse::<nix::sys::signal::Signal>().is_ok());
    }
    assert_eq!(names.len(), nix::sys::signal::Signal::iterator().count());
}

#[test]
fn run_faults_have_messages() {
    assert_eq!(RunFault::WaitFailed.message(), "[Error] waitpid が失敗しました。");
    assert_eq!(
        RunFault::ZeroTimeout.message(),
        "passing 0 to `alarm::set` is not allowed, to cancel an alarm use `alarm::cancel`"
    );
    assert_eq!(
        RunFault::NoTimeout.message(),
        "the alarm has gone off though there is no timeout"
    );
    assert_eq!(
        RunFault::ReadTooMuch.message(),
        "read counted more bytes than the buffer holds"
    );
}

#[test]
fn captured_bytes_are_shown_as_escaped_text() {
    assert_eq!(captured_report(b""), "[myrun] captured 0 bytes: \"\"");
    assert_eq!(
        captured_report(b"a\t\"b\"\n"),
        "[myrun] captured 6 bytes: \"a\\t\\\"b\\\"\\n\""
    );
    assert_eq!(
        captured_report("日本".as_bytes()),
        "[myrun] captured 6 bytes: \"日本\""
    );
    assert_eq!(
        captured_report(&[0x61, 0xff, 0x62]),
        "[myrun] captured 3 bytes: \"a\u{fffd}b\""
    );
    assert_eq!(captured_line(6, "x"), "[myrun] captured 6 bytes: \"x\"");
}

#[test]
fn lines_hold_their_values() {
    assert_eq!(timeout_line(2, 20127), "[myrun] timeout (2s), sending SIGTERM to pid=20127");
    assert_eq!(
        still_alive_line(3),
        "[myrun] still alive after 1s, sending SIGKILL to pid=3"
    );
    assert_eq!(exited_line(24720, 1), "[myrun] pid=24720 exited with 1");
    assert_eq!(killed_line(1, "SIGSEGV"), "[myrun] pid=1 killed by signal SIGSEGV");
    assert_eq!(
        unexpected_line("x"),
        "[Error] 子プロセスが exit 以外の結果を示しました: x"
    );
    assert_eq!(fork_failed_line("EAGAIN"), "[Error] fork に失敗しました: EAGAIN");
}

#[test]
fn only_a_missing_command_exits() {
    assert_eq!(CommandError::Missing.exit_code(), Some(1));
    assert_eq!(CommandError::NulInProgram.exit_code(), None);
    assert_eq!(CommandError::NulInArgument.exit_code(), None);
    assert_eq!(FORK_FAILED, 1);
}

#[test]
fn only_an_unexpected_end_goes_to_the_standard_error() {
    assert!(Message::Unexpected.to_stderr());
    for m in [
        Message::Captured,
        Message::TimedOut { secs: 1, pid: 2 },
        Message::StillAlive { pid: 2 },
        Message::Exited { pid: 2, status: 0 },
        Message::Killed { pid: 2, signal: Signal::Term },
    ] {
        assert!(!m.to_stderr());
    }
}

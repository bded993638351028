use oslearn::copy::{
    copy_failed_line, copy_request, plain_copy_request, retry, write_all, Copier, CopyAction,
    CopyFault, CopyRequest, CopyState, Retry, UsageError, WriteStep, COPY_FAILED,
};
use oslearn::sys::SysResult;

fn args(a: &[&str]) -> Vec<String> {
    a.iter().map(|s| s.to_string()).collect()
}

#[test]
fn two_arguments_take_the_default_buffer() {
    assert_eq!(
        copy_request(&args(&["a", "b"])),
        Ok(CopyRequest { src: "a".to_string(), dst: "b".to_string(), buf_size: 8192 })
    );
}

#[test]
fn third_argument_is_the_buffer_size() {
    assert_eq!(copy_request(&args(&["a", "b", "1"])).unwrap().buf_size, 1);
    assert_eq!(copy_request(&args(&["a", "b", "65536", "x"])).unwrap().buf_size, 65536);
    assert_eq!(copy_request(&args(&["a", "b", "+7"])).unwrap().buf_size, 7);
}

#[test]
fn bad_command_lines_are_told_apart() {
    assert_eq!(copy_request(&args(&[])), Err(UsageError::MissingArgument));
    assert_eq!(copy_request(&args(&["a"])), Err(UsageError::MissingArgument));
    assert_eq!(copy_request(&args(&["a", "b", "4k"])), Err(UsageError::BadBufSize));
    assert_eq!(copy_request(&args(&["a", "b", "-1"])), Err(UsageError::BadBufSize));
    assert_eq!(copy_request(&args(&["a", "b", ""])), Err(UsageError::BadBufSize));
    assert_eq!(copy_request(&args(&["a", "b", "0"])), Err(UsageError::ZeroBufSize));
}

#[test]
fn usage_errors_have_messages() {
    assert_eq!(UsageError::MissingArgument.message(), "[Error] 引数不足");
    assert_eq!(
        UsageError::BadBufSize.message(),
        "[Error] 第３引数にはバッファサイズ（bytes）を整数値で入力してください."
    );
    assert_eq!(
        UsageError::ZeroBufSize.message(),
        "[Error] 第３引数のバッファサイズは正の整数を入力してください."
    );
}

#[test]
fn plain_copy_takes_two_paths() {
    assert_eq!(
        plain_copy_request(&args(&["a", "b", "c"])),
        Ok(("a".to_string(), "b".to_string()))
    );
    assert_eq!(plain_copy_request(&args(&["a"])), Err(UsageError::MissingArgument));
    assert_eq!(copy_failed_line("x"), "[Error] ファイルコピーに失敗しました。x");
}

#[test]
fn only_interrupted_calls_are_made_again() {
    assert_eq!(retry(SysResult::Failed(4)), Retry::Again);
    for e in [1, 2, 5, 9, 11, 20, 28, 32] {
        assert_eq!(retry(SysResult::Failed(e)), Retry::Over(SysResult::Failed(e)));
    }
    assert_eq!(retry(SysResult::Done(4)), Retry::Over(SysResult::Done(4)));
}

#[test]
fn write_all_goes_on_with_the_rest() {
    assert_eq!(write_all(10, 0, SysResult::Done(3)), WriteStep::Continue { written: 3 });
    assert_eq!(write_all(10, 3, SysResult::Failed(4)), WriteStep::Continue { written: 3 });
    assert_eq!(write_all(10, 3, SysResult::Done(7)), WriteStep::Complete);
    assert_eq!(write_all(10, 3, SysResult::Failed(28)), WriteStep::Fail(28));
    assert_eq!(write_all(10, 3, SysResult::Done(0)), WriteStep::Abort(CopyFault::WroteNothing));
    assert_eq!(write_all(10, 3, SysResult::Done(8)), WriteStep::Abort(CopyFault::WroteTooMuch));
    assert_eq!(
        write_all(10, 3, SysResult::Done(usize::MAX)),
        WriteStep::Abort(CopyFault::WroteTooMuch)
    );
}

#[test]
fn copier_opens_source_before_target() {
    let mut c = Copier::new(16);
    assert_eq!(c.action(), CopyAction::OpenSource);
    c.answer(SysResult::Done(3));
    assert_eq!(c.action(), CopyAction::OpenTarget { mode: 0o644 });
    c.answer(SysResult::Done(4));
    assert_eq!(c.action(), CopyAction::Read { len: 16 });
}

#[test]
fn copier_stops_where_open_fails() {
    let mut c = Copier::new(16);
    c.answer(SysResult::Failed(2));
    assert_eq!(c.action(), CopyAction::Fail(2));
    let mut d = Copier::new(16);
    d.answer(SysResult::Done(3));
    d.answer(SysResult::Failed(4));
    assert_eq!(d.action(), CopyAction::Fail(4));
}

#[test]
fn copier_aborts_on_impossible_answers() {
    let mut c = Copier::new(16);
    c.answer(SysResult::Done(3));
    c.answer(SysResult::Done(4));
    c.answer(SysResult::Done(17));
    assert_eq!(c.action(), CopyAction::Abort(CopyFault::ReadTooMuch));
    let mut d = Copier::new(16);
    d.answer(SysResult::Done(3));
    d.answer(SysResult::Done(4));
    d.answer(SysResult::Done(16));
    d.answer(SysResult::Done(0));
    assert_eq!(d.action(), CopyAction::Abort(CopyFault::WroteNothing));
    d.answer(SysResult::Done(1));
    assert_eq!(d.state(), CopyState::Faulted(CopyFault::WroteNothing));
}

/// Copies `source` through a copier, with calls that are interrupted and cut short.
fn copied(source: &[u8], buf_size: usize) -> (Vec<u8>, CopyAction) {
    let mut c = Copier::new(buf_size);
    let mut buf = vec![0u8; buf_size];
    let mut pos = 0;
    let mut target: Vec<u8> = Vec::new();
    let mut turn = 0;
    loop {
        turn += 1;
        let answer = match c.action() {
            CopyAction::OpenSource | CopyAction::OpenTarget { .. } => SysResult::Done(3),
            CopyAction::Read { .. } | CopyAction::Write { .. } if turn % 3 == 0 => {
                SysResult::Failed(4)
            }
            CopyAction::Read { len } => {
                let n = len.min(source.len() - pos);
                buf[..n].copy_from_slice(&source[pos..pos + n]);
                pos += n;
                SysResult::Done(n)
            }
            CopyAction::Write { from, to } => {
                let n = (to - from).min(1 + turn % 5);
                target.extend_from_slice(&buf[from..from + n]);
                SysResult::Done(n)
            }
            over => return (target, over),
        };
        c.answer(answer);
    }
}

#[test]
fn finished_copy_holds_the_source() {
    let source: Vec<u8> = (0..1000u32).map(|i| (i * 7 % 251) as u8).collect();
    for buf_size in [1, 2, 7, 64, 8192] {
        assert_eq!(copied(&source, buf_size), (source.clone(), CopyAction::Finish));
    }
    assert_eq!(copied(&[], 16), (Vec::new(), CopyAction::Finish));
}

#[test]
fn broken_off_copy_is_a_prefix() {
    let mut c = Copier::new(8);
    c.answer(SysResult::Done(3));
    c.answer(SysResult::Done(4));
    c.answer(SysResult::Done(8));
    c.answer(SysResult::Done(5));
    assert_eq!(c.action(), CopyAction::Write { from: 5, to: 8 });
    c.answer(SysResult::Failed(28));
    assert_eq!(c.action(), CopyAction::Fail(28));
}

#[test]
fn copy_faults_have_messages() {
    assert_eq!(
        CopyFault::WroteNothing.message(),
        "0を返すことは想定されない。 `man 2 write` にも明記されていない。が、行儀の悪いデバイスドライバなどで発生した場合に、無限ループになるので明示的に落とす。std::io::Write::write_allでは独自のエラーを返している。"
    );
    assert_eq!(
        CopyFault::ReadTooMuch.message(),
        "read counted more bytes than the buffer holds"
    );
    assert_eq!(
        CopyFault::WroteTooMuch.message(),
        "write counted more bytes than it was given"
    );
}

#[test]
fn usage_errors_exit_with_1() {
    for e in [UsageError::MissingArgument, UsageError::BadBufSize, UsageError::ZeroBufSize] {
        assert_eq!(e.exit_code(), 1);
    }
    assert_eq!(COPY_FAILED, 1);
}

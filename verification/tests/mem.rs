use oslearn::fault::{numbered_page, Pager, PagerStep, Touch};
use oslearn::mem::{
    chosen_program, named_program, AddressLine, ByteLine, EntryLine, Filling, Label, MemAction, MemMessage,
    Outcome, Program, Run,
};
use oslearn::mem_lines::{bytes_line, fallback_line, fallback_notice};
use oslearn::pagemap::PagemapEntry;
use oslearn::run::ChildEnd;
use oslearn::signal::Signal;
use std::collections::HashMap;

/// All actions of a run up to its end, or up to a fork or a wait.
fn actions(program: Program) -> (Vec<MemAction>, Run) {
    let mut run = Run::start(program);
    let mut all = Vec::new();
    loop {
        match run.action() {
            None => return (all, run),
            Some(MemAction::Fork) | Some(MemAction::Wait { .. }) => return (all, run),
            Some(a) => {
                all.push(a);
                run = run.answer(Outcome::Done);
            }
        }
    }
}

fn written(actions: &[MemAction]) -> Vec<usize> {
    let mut offsets = Vec::new();
    for a in actions {
        if let MemAction::Write { offset, .. } = a {
            offsets.push(*offset);
        }
    }
    offsets
}

#[test]
fn arguments_name_programs() {
    assert_eq!(named_program(Some("step2")), Some(Program::Step2));
    assert_eq!(named_program(Some("step3")), Some(Program::Step3));
    assert_eq!(named_program(Some("step4")), Some(Program::Step4));
    assert_eq!(named_program(Some("step5-1")), Some(Program::Step5Numbered));
    assert_eq!(named_program(Some("step5-2")), Some(Program::Step5Snapshot));
    for s in ["", "step1", "step5", "step22", "STEP2"] {
        assert_eq!(named_program(Some(s)), None);
    }
    assert_eq!(named_program(None), None);
}

#[test]
fn other_arguments_fall_back_with_a_notice() {
    assert_eq!(
        fallback_notice(None).unwrap(),
        "[Fallback] 引数で明示された step が無効(None)なため、step2 を実行します。"
    );
    assert_eq!(
        fallback_notice(Some("it's \"x\"\n")).unwrap(),
        format!(
            "[Fallback] 引数で明示された step が無効({:?})なため、step2 を実行します。",
            Some("it's \"x\"\n")
        )
    );
    assert_eq!(
        fallback_line(Some("\"y\"")),
        "[Fallback] 引数で明示された step が無効(Some(\"y\"))なため、step2 を実行します。"
    );
}

#[test]
fn named_steps_run_without_a_notice() {
    assert_eq!(chosen_program(Some("step4")), Program::Step4);
    assert_eq!(fallback_notice(Some("step4")), None);
    assert_eq!(fallback_notice(Some("step2")), None);
    for arg in [None, Some(""), Some("step6")] {
        assert_eq!(chosen_program(arg), Program::Step2);
        assert!(fallback_notice(arg).is_some());
    }
}

#[test]
fn second_step_starts_with_the_map() {
    let (all, _) = actions(Program::Step2);
    assert_eq!(
        &all[..9],
        &[
            MemAction::LoadMappings,
            MemAction::SayTotal,
            MemAction::ShowUsage(None),
            MemAction::SayMappings,
            MemAction::Say(MemMessage::MapStarts),
            MemAction::MapMemory { len: 1 << 30 },
            MemAction::SayAddress(AddressLine::Mapped),
            MemAction::ShowUsage(None),
            MemAction::Write { offset: 0, value: 1 },
        ]
    );
    assert_eq!(
        &all[all.len() - 5..],
        &[
            MemAction::Say(MemMessage::MapDone),
            MemAction::LoadMappings,
            MemAction::SayTotal,
            MemAction::ShowUsage(None),
            MemAction::SayMappings,
        ]
    );
    assert_eq!(all.len(), 8 + 262144 + 3 * 2 + 4 + 5);
}

#[test]
fn second_step_writes_each_page_once() {
    let (all, run) = actions(Program::Step2);
    let expected: Vec<usize> = (0..262144).map(|i| i * 4096).collect();
    assert_eq!(written(&all), expected);
    assert_eq!(run.action(), None);
}

#[test]
fn second_step_reports_at_its_checkpoints() {
    let (all, _) = actions(Program::Step2);
    let mut reports = Vec::new();
    for (k, a) in all.iter().enumerate() {
        if let MemAction::Say(MemMessage::PagesWritten(n)) = a {
            assert_eq!(written(&all[..k]).len(), *n);
            assert_eq!(all[k + 1], MemAction::ShowUsage(None));
            reports.push(*n);
        }
    }
    assert_eq!(reports, vec![100, 1000, 10000]);
}

#[test]
fn second_step_gives_back_what_it_has_written() {
    let (all, _) = actions(Program::Step2);
    let k = all.iter().position(|a| matches!(a, MemAction::Discard { .. })).unwrap();
    assert_eq!(
        &all[k - 3..k + 4],
        &[
            MemAction::Say(MemMessage::PagesWritten(10000)),
            MemAction::ShowUsage(None),
            MemAction::Say(MemMessage::GivingBack),
            MemAction::Discard { len: 4096 * 10000 },
            MemAction::ShowUsage(None),
            MemAction::SayByte { offset: 9999 * 4096, line: ByteLine::GivenBack },
            MemAction::Write { offset: 10000 * 4096, value: 1 },
        ]
    );
}

#[test]
fn accesses_lie_in_the_mapped_memory() {
    for p in [Program::Step2, Program::Step3, Program::Step5Numbered, Program::Step5Snapshot] {
        let (all, _) = actions(p);
        let mut mapped = 0;
        for a in all {
            match a {
                MemAction::MapMemory { len } => mapped = len,
                MemAction::Write { offset, .. } => assert!(offset < mapped),
                MemAction::SayByte { offset, .. } => assert!(offset < mapped),
                MemAction::SayBytes { first, second } => assert!(first < mapped && second < mapped),
                MemAction::Discard { len } => assert!(len <= mapped),
                MemAction::Register { len } => assert_eq!(len, mapped),
                _ => {}
            }
        }
    }
}

#[test]
fn third_step_fills_and_forks() {
    let (all, run) = actions(Program::Step3);
    assert_eq!(all[0], MemAction::MapMemory { len: 1 << 30 });
    assert_eq!(written(&all).len(), 262144);
    assert_eq!(run.action(), Some(MemAction::Fork));
}

#[test]
fn third_step_parent_ends_as_its_child() {
    let (_, run) = actions(Program::Step3);
    let mut run = run.answer(Outcome::Forked { child: 77 });
    for a in [
        MemAction::ShowUsage(Some(Label::ParentBeforeWait)),
        MemAction::ShowRollup(Label::ParentBeforeWait),
    ] {
        assert_eq!(run.action(), Some(a));
        run = run.answer(Outcome::Done);
    }
    assert_eq!(run.action(), Some(MemAction::Wait { child: 77 }));
    let mut run = run.answer(Outcome::Ended(ChildEnd::Exited { pid: 77, status: 3 }));
    for a in [
        MemAction::Say(MemMessage::ChildExited { pid: 77, status: 3 }),
        MemAction::ShowUsage(Some(Label::ParentAfterWait)),
        MemAction::ShowRollup(Label::ParentAfterWait),
        MemAction::Exit(3),
    ] {
        assert_eq!(run.action(), Some(a));
        run = run.answer(Outcome::Done);
    }
    assert_eq!(run.action(), None);
}

#[test]
fn lost_child_gives_128() {
    for p in [Program::Step3Parent { child: 7 }, Program::Step4Parent { child: 7 }] {
        let (_, run) = actions(p);
        assert_eq!(run.action(), Some(MemAction::Wait { child: 7 }));
        let run = run.answer(Outcome::Ended(ChildEnd::Signaled {
            pid: 7,
            signal: Signal::Kill,
            number: 9,
        }));
        assert_eq!(run.action(), Some(MemAction::SayError(MemMessage::ChildLost)));
        let run = run.answer(Outcome::Done);
        assert_eq!(run.action(), Some(MemAction::Exit(128)));
    }
}

#[test]
fn child_of_the_third_step_writes_and_exits() {
    let (_, run) = actions(Program::Step3);
    assert_eq!(
        run.answer(Outcome::InChild).action(),
        Some(MemAction::ShowUsage(Some(Label::ChildBeforeWrite)))
    );
    let (all, _) = actions(Program::Step3Child);
    assert_eq!(written(&all).len(), 10000);
    assert_eq!(all.last(), Some(&MemAction::Exit(0)));
    assert_eq!(all.len(), 2 + 10000 + 3);
}

#[test]
fn failed_fork_gives_1() {
    for p in [Program::Step3, Program::Step4] {
        let (_, run) = actions(p);
        let run = run.answer(Outcome::NotForked);
        assert_eq!(run.action(), Some(MemAction::SayForkFailed));
        let run = run.answer(Outcome::Done);
        assert_eq!(run.action(), Some(MemAction::Exit(1)));
    }
}

#[test]
fn fourth_step_looks_at_the_entries() {
    let (all, run) = actions(Program::Step4);
    assert_eq!(
        all,
        vec![
            MemAction::MapMemory { len: 1 << 30 },
            MemAction::Write { offset: 0, value: 1 },
            MemAction::SayEntry(EntryLine::BeforeFork),
        ]
    );
    let parent = run.answer(Outcome::Forked { child: 5 });
    assert_eq!(parent.action(), Some(MemAction::SayEntry(EntryLine::ParentBeforeWait)));
    let parent = parent.answer(Outcome::Done);
    assert_eq!(parent.action(), Some(MemAction::Wait { child: 5 }));
    let parent = parent.answer(Outcome::Ended(ChildEnd::Exited { pid: 5, status: 9 }));
    assert_eq!(parent.action(), Some(MemAction::SayEntry(EntryLine::ParentAfterWait)));
    assert_eq!(parent.answer(Outcome::Done).action(), Some(MemAction::Exit(0)));
    let (child, _) = actions(Program::Step4Child);
    assert_eq!(
        child,
        vec![
            MemAction::SayEntry(EntryLine::ChildBeforeWrite),
            MemAction::Write { offset: 0, value: 1 },
            MemAction::SayEntry(EntryLine::ChildAfterWrite),
            MemAction::Exit(0),
        ]
    );
}

#[test]
fn numbered_pages_are_read_twice() {
    let (all, _) = actions(Program::Step5Numbered);
    let mut expected = vec![
        MemAction::MapMemory { len: 1 << 14 },
        MemAction::SayAddress(AddressLine::Start),
        MemAction::Register { len: 1 << 14 },
        MemAction::StartFilling(Filling::Number),
    ];
    for i in 0..4 {
        expected.push(MemAction::SayByte { offset: i * 4096, line: ByteLine::First });
        expected.push(MemAction::SayByte { offset: i * 4096, line: ByteLine::Second });
    }
    assert_eq!(all, expected);
}

#[test]
fn every_tenth_page_of_the_snapshot_is_read() {
    let (all, _) = actions(Program::Step5Snapshot);
    let mut expected = vec![
        MemAction::MapMemory { len: 819200 },
        MemAction::ShowUsage(Some(Label::MainThread)),
        MemAction::SayAddress(AddressLine::Start),
        MemAction::Register { len: 819200 },
        MemAction::StartFilling(Filling::Snapshot),
    ];
    for i in 0..20 {
        let offset = i * 10 * 4096;
        if i == 4 {
            expected.push(MemAction::Write { offset, value: 255 });
            expected.push(MemAction::SayBytes { first: offset, second: offset + 1 });
        }
        expected.push(MemAction::SayByte { offset, line: ByteLine::Page(i * 10 + 1) });
    }
    expected.push(MemAction::ShowUsage(Some(Label::MainThread)));
    assert_eq!(all, expected);
}

#[test]
fn labels_and_messages_have_texts() {
    assert_eq!(Label::ParentBeforeWait.prefix(), "[parent][waitpid前]");
    assert_eq!(Label::ParentAfterWait.prefix(), "[parent][waitpid後]");
    assert_eq!(Label::ChildBeforeWrite.prefix(), "[child][書き込み前]");
    assert_eq!(Label::ChildAfterWrite.prefix(), "[child][書き込み後]");
    assert_eq!(Label::MainThread.prefix(), "[main thread] ");
    assert_eq!(MemMessage::MapStarts.line(), "----- mmap 開始 -----");
    assert_eq!(MemMessage::MapDone.line(), "----- mmap 完了 -----");
    assert_eq!(MemMessage::PagesWritten(1000).line(), "----- 1000 ページ書き込み完了 -----");
    assert_eq!(MemMessage::GivingBack.line(), "---- 物理メモリを返却する ----");
    assert_eq!(
        MemMessage::ChildExited { pid: 7, status: 0 }.line(),
        "[parent][waitpid後] pid=7 exited with 0"
    );
    assert_eq!(
        MemMessage::ChildLost.line(),
        "[parent][waitpid後] 子プロセスが exit 以外の理由で落ちました。"
    );
}

#[test]
fn values_have_lines() {
    assert_eq!(AddressLine::Mapped.line(0x7f00_1000), "mmap_anonymous の返した値: 0x7f001000");
    assert_eq!(AddressLine::Start.line(0), "[main thread] start_addr=0x0");
    assert_eq!(ByteLine::GivenBack.line(0), "返却した 10000 ページ目を読み込んだ結果: 0");
    assert_eq!(ByteLine::First.line(3), "[main thread] result=3");
    assert_eq!(ByteLine::Second.line(255), "[main thread] 2回目 result=255");
    assert_eq!(ByteLine::Page(41).line(255), "[main thread] page_num=41, result=255");
    assert_eq!(bytes_line(255, 41), "[main thread] first_byte=255, second_byte=41");
}

#[test]
fn entries_are_shown_as_debug_shows_them() {
    for entry in [
        PagemapEntry { present: true, pfn: 123456 },
        PagemapEntry { present: false, pfn: 0 },
    ] {
        assert_eq!(EntryLine::BeforeFork.line(entry), format!("fork 前: {:?}", entry));
        assert_eq!(EntryLine::ParentBeforeWait.line(entry), format!("[親] waitpid 前: {:?}", entry));
        assert_eq!(
            EntryLine::ParentAfterWait.line(entry),
            format!("[親] waitpid 後(子がexitした後): {:?}", entry)
        );
        assert_eq!(EntryLine::ChildBeforeWrite.line(entry), format!("[子] 書き込み前: {:?}", entry));
        assert_eq!(EntryLine::ChildAfterWrite.line(entry), format!("[子] 書き込み後: {:?}", entry));
    }
}

/// Memory that is filled page by page when it is touched.
struct Memory {
    pages: HashMap<usize, Vec<u8>>,
    pager: Option<Pager>,
    file: Vec<u8>,
}

impl Memory {
    fn new(pager: Option<Pager>, file: Vec<u8>) -> Memory {
        Memory { pages: HashMap::new(), pager, file }
    }

    fn byte(&mut self, offset: usize) -> &mut u8 {
        let page = offset / 4096;
        if !self.pages.contains_key(&page) {
            let filling = match &mut self.pager {
                None => vec![0u8; 4096],
                Some(pager) => match pager.step(Touch::Missing { addr: pager.start + offset }) {
                    PagerStep::Number { page_num, .. } => numbered_page(page_num),
                    PagerStep::Snapshot { file_offset, .. } => {
                        self.file[file_offset as usize..file_offset as usize + 4096].to_vec()
                    }
                    other => panic!("{:?}", other),
                },
            };
            self.pages.insert(page, filling);
        }
        &mut self.pages.get_mut(&page).unwrap()[offset % 4096]
    }

    /// Carries the actions out and gives the bytes that are shown.
    fn play(&mut self, actions: &[MemAction]) -> Vec<u8> {
        let mut shown = Vec::new();
        for a in actions {
            match *a {
                MemAction::Write { offset, value } => *self.byte(offset) = value,
                MemAction::Discard { len } => self.pages.retain(|page, _| page * 4096 >= len),
                MemAction::SayByte { offset, .. } => shown.push(*self.byte(offset)),
                MemAction::SayBytes { first, second } => {
                    shown.push(*self.byte(first));
                    shown.push(*self.byte(second));
                }
                _ => {}
            }
        }
        shown
    }
}

/// The actions without most of the writes, so that little memory is needed.
fn thinned(actions: Vec<MemAction>) -> Vec<MemAction> {
    actions
        .into_iter()
        .filter(|a| match a {
            MemAction::Write { offset, .. } => offset / 4096 % 1000 > 997 || offset / 4096 % 1000 == 0,
            _ => true,
        })
        .collect()
}

#[test]
fn second_step_shows_zero_and_leaves_ones() {
    let mut memory = Memory::new(None, Vec::new());
    assert_eq!(memory.play(&thinned(actions(Program::Step2).0)), vec![0]);
    assert_eq!(*memory.byte(0), 0);
    assert_eq!(*memory.byte(9999 * 4096), 0);
    assert_eq!(*memory.byte(10000 * 4096), 1);
    assert_eq!(*memory.byte(10000 * 4096 + 1), 0);
    assert_eq!(*memory.byte(262000 * 4096), 1);
}

#[test]
fn children_change_no_byte() {
    for (p, child) in [
        (Program::Step3, Program::Step3Child),
        (Program::Step4, Program::Step4Child),
    ] {
        let mut memory = Memory::new(None, Vec::new());
        memory.play(&thinned(actions(p).0));
        let left = memory.pages.clone();
        assert_eq!(*memory.byte(0), 1);
        memory.play(&thinned(actions(child).0));
        assert_eq!(memory.pages, left);
    }
}

#[test]
fn numbered_memory_shows_its_page_numbers() {
    let pager = Pager::new(Filling::Number, 0x7000_0000);
    let mut memory = Memory::new(Some(pager), Vec::new());
    assert_eq!(
        memory.play(&actions(Program::Step5Numbered).0),
        vec![1, 1, 2, 2, 3, 3, 4, 4]
    );
}

#[test]
fn snapshot_memory_shows_the_file_but_for_one_byte() {
    let file: Vec<u8> = (0..819200usize).map(|i| (i / 4096 + 1) as u8).collect();
    let pager = Pager::new(Filling::Snapshot, 0x7000_0000);
    let mut memory = Memory::new(Some(pager), file.clone());
    let mut expected = Vec::new();
    for i in 0..20u8 {
        if i == 4 {
            expected.push(255);
            expected.push(41);
            expected.push(255);
        } else {
            expected.push(i * 10 + 1);
        }
    }
    assert_eq!(memory.play(&actions(Program::Step5Snapshot).0), expected);
    assert_eq!(memory.pages.len(), 20);
    for offset in 0..819200 {
        if offset / 4096 % 10 == 0 && offset != 163840 {
            assert_eq!(*memory.byte(offset), file[offset]);
        }
    }
}

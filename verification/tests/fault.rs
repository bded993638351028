use oslearn::fault::{
    nothing_line, number_line, numbered_page, other_line, snapshot_line, Pager, PagerStep, Touch,
};
use oslearn::mem::Filling;

const START: usize = 0x7000_0000;

#[test]
fn numbered_pages_count_from_one() {
    let mut p = Pager::new(Filling::Number, START);
    for i in 0..4 {
        for inside in [0, 1, 4095] {
            assert_eq!(
                p.step(Touch::Missing { addr: START + i * 4096 + inside }),
                PagerStep::Number { page_num: i + 1, dst: START + i * 4096 }
            );
        }
    }
    assert_eq!(p.count, 0);
}

#[test]
fn numbered_page_is_full_of_its_number() {
    assert_eq!(numbered_page(3), vec![3u8; 4096]);
    assert_eq!(numbered_page(255), vec![255u8; 4096]);
    assert_eq!(numbered_page(256), vec![0u8; 4096]);
    assert_eq!(numbered_page(258), vec![2u8; 4096]);
}

#[test]
fn snapshot_pages_are_counted() {
    let mut p = Pager::new(Filling::Snapshot, START);
    for n in 0..20usize {
        let page = n * 10;
        assert_eq!(
            p.step(Touch::Missing { addr: START + page * 4096 + 7 }),
            PagerStep::Snapshot {
                page,
                file_offset: page as u64 * 4096,
                dst: START + page * 4096,
                count: n as i32 + 1,
            }
        );
    }
    assert_eq!(p.count, 20);
}

#[test]
fn addresses_before_the_memory_abort() {
    let mut p = Pager::new(Filling::Number, START);
    assert_eq!(p.step(Touch::Missing { addr: START - 1 }), PagerStep::Abort);
    let mut p = Pager::new(Filling::Snapshot, START);
    assert_eq!(p.step(Touch::Missing { addr: 0 }), PagerStep::Abort);
    assert_eq!(p.count, 0);
    p.count = i32::MAX;
    assert_eq!(p.step(Touch::Missing { addr: START }), PagerStep::Abort);
    assert_eq!(p.count, i32::MAX);
}

#[test]
fn other_events_are_said() {
    let mut p = Pager::new(Filling::Number, START);
    assert_eq!(p.step(Touch::Other), PagerStep::SayOther);
    assert_eq!(p.step(Touch::Nothing), PagerStep::SayNothing);
    let mut p = Pager::new(Filling::Snapshot, START);
    assert_eq!(p.step(Touch::Other), PagerStep::SayOther);
    assert_eq!(p.step(Touch::Nothing), PagerStep::SayOther);
    assert_eq!(p.count, 0);
}

#[test]
fn addresses_of_one_page_have_one_answer() {
    let mut p = Pager::new(Filling::Number, START + 5);
    let a = p.step(Touch::Missing { addr: START + 5 + 4096 });
    let b = p.step(Touch::Missing { addr: START + 5 + 8191 });
    assert_eq!(a, b);
    assert_eq!(a, PagerStep::Number { page_num: 2, dst: START + 5 + 4096 });
}

#[test]
fn pager_lines_hold_their_values() {
    assert_eq!(
        number_line(2, "Missing", "Read", 0x7f00_1000),
        "[another thread] ページフォルト発生(page_num=2): Missing, Read, 0x7f001000"
    );
    assert_eq!(
        snapshot_line(40, 5, "Missing", "Write", 0x1000),
        "[Handler Thread] Pagefault! (i=40)(読み込んだページ数=5): Missing, Write, 0x1000"
    );
    assert_eq!(
        other_line(Filling::Number, "x"),
        "[another thread] ページフォルト以外のイベント検知: x"
    );
    assert_eq!(
        other_line(Filling::Snapshot, "None"),
        "[Handler Thread] Pagefault 以外のイベントを検知しました: None"
    );
    assert_eq!(
        nothing_line(),
        "[anather thread][WARN] uffd.read_event() で None が返りました。"
    );
}

#[test]
fn bytes_of_the_snapshot_come_from_the_same_offset() {
    for i in 0..20usize {
        for offset in [i * 40960, i * 40960 + 1, i * 40960 + 4095] {
            let mut p = Pager::new(Filling::Snapshot, START);
            match p.step(Touch::Missing { addr: START + offset }) {
                PagerStep::Snapshot { file_offset, dst, .. } => {
                    assert_eq!((dst - START) as u64, file_offset);
                    assert_eq!(file_offset as usize, i * 40960);
                    assert_eq!(offset - (dst - START), offset % 4096);
                }
                other => panic!("{:?}", other),
            }
        }
    }
}

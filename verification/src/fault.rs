//! Filling pages when they are touched for the first time.
//!
//! A thread of its own is told of the first touch of each page of a memory ([`Touch`]), and the
//! thread that touched the page sleeps until the page is there. [`Pager`] decides what goes into
//! the page: its number, or the same page of a snapshot.

use crate::mem::{ByteLine, Filling, MemAction, Program};
use crate::mem_lines::append_address;
use crate::pagemap::PAGE_SIZE;
use crate::text::append_number;
use vstd::prelude::*;

verus! {

/// What the kernel has told.
#[derive(Clone, Copy, Debug, PartialEq, Eq, Structural)]
pub enum Touch {
    /// An address was touched whose page is missing. It can lie anywhere in the page.
    Missing { addr: usize },
    /// Something else.
    Other,
    /// Nothing.
    Nothing,
}

/// What to do about it.
#[derive(Clone, Copy, Debug, PartialEq, Eq, Structural)]
pub enum PagerStep {
    /// Fill the page at `dst` with its number, after saying so.
    Number { page_num: usize, dst: usize },
    /// Fill the page at `dst` with the page of the snapshot at `file_offset`; then say so. So many
    /// pages, with this one, have been filled.
    Snapshot { page: usize, file_offset: u64, dst: usize, count: i32 },
    /// Say that something else was told.
    SayOther,
    /// Say that nothing was told.
    SayNothing,
    /// Panic: the address lies before the memory, or too many pages were counted.
    Abort,
}

/// The thread that fills pages.
pub struct Pager {
    pub filling: Filling,
    /// Where the memory starts.
    pub start: usize,
    /// How many pages have been filled from the snapshot.
    pub count: i32,
}

/// The place of the page that holds an address, counted from the start of the memory.
pub open spec fn page_at(start: int, addr: int) -> int {
    (addr - start) / 4096
}

impl Pager {
    /// What to do about what was told.
    pub open spec fn step_of(self, touch: Touch) -> PagerStep {
        match (touch, self.filling) {
            (Touch::Missing { addr }, Filling::Number) => if addr < self.start {
                PagerStep::Abort
            } else {
                let page = page_at(self.start as int, addr as int);
                PagerStep::Number {
                    page_num: (page + 1) as usize,
                    dst: (self.start + page * 4096) as usize,
                }
            },
            (Touch::Missing { addr }, Filling::Snapshot) => if addr < self.start || self.count
                == i32::MAX {
                PagerStep::Abort
            } else {
                let page = page_at(self.start as int, addr as int);
                PagerStep::Snapshot {
                    page: page as usize,
                    file_offset: (page * 4096) as u64,
                    dst: (self.start + page * 4096) as usize,
                    count: (self.count + 1) as i32,
                }
            },
            (Touch::Nothing, Filling::Number) => PagerStep::SayNothing,
            _ => PagerStep::SayOther,
        }
    }

    /// The thread at its start.
    pub fn new(filling: Filling, start: usize) -> (p: Pager)
        ensures
            p == (Pager { filling, start, count: 0 }),
    {
        Pager { filling, start, count: 0 }
    }

    /// Decides what to do about what was told, and counts the pages of the snapshot.
    pub fn step(&mut self, touch: Touch) -> (s: PagerStep)
        ensures
            s == old(self).step_of(touch),
            final(self).filling == old(self).filling,
            final(self).start == old(self).start,
            final(self).count == old(self).count + (if s is Snapshot {
                1int
            } else {
                0
            }),
    {
        match touch {
            Touch::Missing { addr } => {
                if addr < self.start {
                    return PagerStep::Abort;
                }
                let page: usize = (addr - self.start) / PAGE_SIZE;
                let dst: usize = self.start + page * PAGE_SIZE;
                match self.filling {
                    Filling::Number => PagerStep::Number { page_num: page + 1, dst },
                    Filling::Snapshot => {
                        if self.count == i32::MAX {
                            return PagerStep::Abort;
                        }
                        self.count = self.count + 1;
                        PagerStep::Snapshot {
                            page,
                            file_offset: (page * PAGE_SIZE) as u64,
                            dst,
                            count: self.count,
                        }
                    },
                }
            },
            Touch::Other => PagerStep::SayOther,
            Touch::Nothing => match self.filling {
                Filling::Number => PagerStep::SayNothing,
                Filling::Snapshot => PagerStep::SayOther,
            },
        }
    }
}

/// What fills the page with a number: that number, as far as a byte holds it, in every byte.
pub open spec fn numbered_page_of(page_num: nat) -> Seq<u8> {
    Seq::new(4096, |i: int| (page_num % 256) as u8)
}

/// Makes what fills the page with a number.
pub fn numbered_page(page_num: usize) -> (page: Vec<u8>)
    ensures
        page@ == numbered_page_of(page_num as nat),
{
    let byte: u8 = (page_num % 256) as u8;
    let mut page: Vec<u8> = Vec::new();
    while page.len() < PAGE_SIZE
        invariant
            page.len() <= PAGE_SIZE,
            byte == page_num % 256,
            forall|i: int| 0 <= i < page@.len() ==> page@[i] == byte,
        decreases PAGE_SIZE - page.len(),
    {
        page.push(byte);
    }
    assert(page@ =~= numbered_page_of(page_num as nat));
    page
}

// ---------------------------------------------------------------------------------------------
// Lines
// ---------------------------------------------------------------------------------------------

/// The end of a line about a touch: what kind it was, whether it read or wrote, and where.
pub open spec fn touch_text(kind: Seq<char>, rw: Seq<char>, addr: nat) -> Seq<char> {
    "): "@ + kind + ", "@ + rw + ", "@ + crate::mem_lines::address_text(addr)
}

fn append_touch(line: &mut String, kind: &str, rw: &str, addr: usize)
    ensures
        final(line)@ == old(line)@ + touch_text(kind@, rw@, addr as nat),
{
    line.append("): ");
    line.append(kind);
    line.append(", ");
    line.append(rw);
    line.append(", ");
    append_address(line, addr);
    assert(line@ =~= old(line)@ + touch_text(kind@, rw@, addr as nat));
}

/// The line before a page is filled with its number.
pub open spec fn number_line_of(page_num: nat, kind: Seq<char>, rw: Seq<char>, addr: nat) -> Seq<
    char,
> {
    "[another thread] ページフォルト発生(page_num="@ + crate::text::digits_of(page_num, 10)
        + touch_text(kind, rw, addr)
}

/// Writes the line before a page is filled with its number; `kind` and `rw` are how the kind of
/// the touch is shown.
pub fn number_line(page_num: usize, kind: &str, rw: &str, addr: usize) -> (line: String)
    ensures
        line@ == number_line_of(page_num as nat, kind@, rw@, addr as nat),
{
    let mut line = "[another thread] ページフォルト発生(page_num=".to_owned();
    append_number(&mut line, page_num as u64, 10);
    append_touch(&mut line, kind, rw, addr);
    line
}

/// The line after a page was filled from the snapshot.
pub open spec fn snapshot_line_of(
    page: nat,
    count: int,
    kind: Seq<char>,
    rw: Seq<char>,
    addr: nat,
) -> Seq<char> {
    "[Handler Thread] Pagefault! (i="@ + crate::text::digits_of(page, 10)
        + ")(読み込んだページ数="@ + crate::text::signed_digits_of(count) + touch_text(
        kind,
        rw,
        addr,
    )
}

/// Writes the line after a page was filled from the snapshot; `kind` and `rw` are how the kind of
/// the touch is shown.
pub fn snapshot_line(page: usize, count: i32, kind: &str, rw: &str, addr: usize) -> (line: String)
    ensures
        line@ == snapshot_line_of(page as nat, count as int, kind@, rw@, addr as nat),
{
    let mut line = "[Handler Thread] Pagefault! (i=".to_owned();
    append_number(&mut line, page as u64, 10);
    line.append(")(読み込んだページ数=");
    crate::text::append_signed(&mut line, count);
    append_touch(&mut line, kind, rw, addr);
    line
}

/// The line for something else that was told, shown as `event`.
pub open spec fn other_line_of(filling: Filling, event: Seq<char>) -> Seq<char> {
    match filling {
        Filling::Number => "[another thread] ページフォルト以外のイベント検知: "@ + event,
        Filling::Snapshot => "[Handler Thread] Pagefault 以外のイベントを検知しました: "@ + event,
    }
}

/// Writes the line for something else that was told, shown as `event`.
pub fn other_line(filling: Filling, event: &str) -> (line: String)
    ensures
        line@ == other_line_of(filling, event@),
{
    let mut line = match filling {
        Filling::Number => "[another thread] ページフォルト以外のイベント検知: ".to_owned(),
        Filling::Snapshot => "[Handler Thread] Pagefault 以外のイベントを検知しました: ".to_owned(),
    };
    line.append(event);
    line
}

/// The line for nothing that was told.
pub open spec fn nothing_line_of() -> Seq<char> {
    "[anather thread][WARN] uffd.read_event() で None が返りました。"@
}

/// Writes the line for nothing that was told.
pub fn nothing_line() -> (line: &'static str)
    ensures
        line@ == nothing_line_of(),
{
    "[anather thread][WARN] uffd.read_event() で None が返りました。"
}

// ---------------------------------------------------------------------------------------------
// Laws
// ---------------------------------------------------------------------------------------------

/// The page that is filled, if any.
pub open spec fn target_of(s: PagerStep) -> Option<int> {
    match s {
        PagerStep::Number { dst, .. } => Some(dst as int),
        PagerStep::Snapshot { dst, .. } => Some(dst as int),
        _ => None,
    }
}

/// The page that is filled is the one that was touched, wherever in it the address lies: the
/// address lies in it, it starts at a page boundary where the memory does, and it lies in the
/// memory where the address does and the memory is made of whole pages.
pub proof fn touched_page_is_filled(p: Pager, addr: usize, len: int)
    requires
        p.start <= addr < p.start + len,
        len % 4096 == 0,
        p.filling is Snapshot ==> p.count < i32::MAX,
    ensures
        target_of(p.step_of(Touch::Missing { addr })) matches Some(dst) && {
            &&& dst <= addr < dst + 4096
            &&& (dst - p.start) % 4096 == 0
            &&& p.start <= dst
            &&& dst + 4096 <= p.start + len
        },
        p.start as int % 4096 == 0 ==> target_of(
            p.step_of(Touch::Missing { addr }),
        )->Some_0 % 4096 == 0,
{
    let page = page_at(p.start as int, addr as int);
    assert(page * 4096 <= addr - p.start < page * 4096 + 4096);
}

/// All addresses of a page have one answer: what fills a page depends on the page alone.
pub proof fn answer_depends_on_the_page(p: Pager, a: usize, b: usize)
    requires
        p.start <= a,
        p.start <= b,
        page_at(p.start as int, a as int) == page_at(p.start as int, b as int),
    ensures
        p.step_of(Touch::Missing { addr: a }) == p.step_of(Touch::Missing { addr: b }),
{
}

/// A page of the snapshot goes to the place in the memory that it has in the file.
pub proof fn snapshot_keeps_its_layout(p: Pager, addr: usize)
    requires
        p.filling is Snapshot,
        p.start <= addr,
        p.count < i32::MAX,
    ensures
        p.step_of(Touch::Missing { addr }) matches PagerStep::Snapshot {
            page,
            file_offset,
            dst,
            count,
        } && dst - p.start == file_offset && file_offset == 4096 * page && count == p.count + 1,
{
    let page = page_at(p.start as int, addr as int);
    assert(page * 4096 <= addr - p.start < page * 4096 + 4096);
}

/// What a program reads of the numbered memory is the number of the page, counted from 1: every
/// byte that it asks for lies in a page that is filled with just that number.
pub proof fn numbered_memory_reads_as_page_numbers(p: Pager, k: int, i: int)
    requires
        p.filling is Number,
        p.start + crate::mem::NUMBERED_LEN <= usize::MAX,
        0 <= k < crate::mem::script_of(Program::Step5Numbered).len(),
        0 <= i < 4096,
    ensures
        crate::mem::script_of(Program::Step5Numbered)[k] matches MemAction::SayByte {
            offset,
            ..
        } ==> {
            &&& p.step_of(Touch::Missing { addr: (p.start + offset) as usize })
                matches PagerStep::Number { page_num, dst } && page_num == offset / 4096 + 1
                && numbered_page_of(page_num as nat)[i] == page_num
        },
{
    crate::mem_laws::accesses_stay_inside(Program::Step5Numbered, k);
}

/// Whether the first touch of the byte at `offset` of the snapshot memory puts the page there that
/// holds the byte at the same offset of the file: the page lies in the memory as it lies in the
/// file, and the byte lies in it.
pub open spec fn filled_from_file(p: Pager, offset: usize) -> bool {
    p.step_of(Touch::Missing { addr: (p.start + offset) as usize }) matches PagerStep::Snapshot {
        file_offset,
        dst,
        ..
    } && dst - p.start == file_offset && file_offset <= offset < file_offset + 4096
        && file_offset + 4096 <= crate::mem::SNAPSHOT_LEN
}

/// Every byte that a program reads or overwrites in the snapshot memory lies in a page that is
/// filled from the same offset of the file, and that page lies inside the memory. The number that
/// is shown with a page is that of the page in the file, counted from 1.
pub proof fn snapshot_memory_comes_from_the_file(p: Pager, k: int)
    requires
        p.filling is Snapshot,
        p.start + crate::mem::SNAPSHOT_LEN <= usize::MAX,
        p.count < i32::MAX,
        0 <= k < crate::mem::script_of(Program::Step5Snapshot).len(),
    ensures
        match crate::mem::script_of(Program::Step5Snapshot)[k] {
            MemAction::SayByte { offset, line } => {
                &&& filled_from_file(p, offset)
                &&& line matches ByteLine::Page(num) && num == offset / 4096 + 1
            },
            MemAction::SayBytes { first, second } => filled_from_file(p, first) && filled_from_file(
                p,
                second,
            ),
            MemAction::Write { offset, .. } => filled_from_file(p, offset),
            _ => true,
        },
{
    crate::mem_laws::accesses_stay_inside(Program::Step5Snapshot, k);
    let (c, o) = crate::mem_laws::lemma_place(
        Program::Step5Snapshot,
        crate::mem::pages_of(Program::Step5Snapshot) as int + 2,
        k,
    );
}

/// A touch anywhere in a page is answered with that page: its number counted from 1, or its place
/// in the snapshot and one more page counted, and its start in the memory.
pub proof fn touches_are_answered_by_page(p: Pager, page: nat, inside: nat)
    requires
        inside < 4096,
        p.start + 4096 * page + inside <= usize::MAX,
    ensures
        ({
            let s = p.step_of(
                Touch::Missing { addr: (p.start + 4096 * page + inside) as usize },
            );
            match p.filling {
                Filling::Number => s matches PagerStep::Number { page_num, dst } && page_num - 1
                    == page && dst == p.start + 4096 * page,
                Filling::Snapshot => if p.count == i32::MAX {
                    s is Abort
                } else {
                    s matches PagerStep::Snapshot { page: i, file_offset, dst, count } && i == page
                        && file_offset == 4096 * page && dst == p.start + 4096 * page && count
                        - 1 == p.count
                },
            }
        }),
{
    assert((4096 * page + inside) / 4096 == page);
}

/// A touch before the memory is a panic. What is no touch of a missing page is said, and nothing is
/// filled; only the thread for numbered memory says that nothing was told.
pub proof fn other_events_fill_nothing(p: Pager, addr: usize)
    ensures
        addr < p.start ==> p.step_of(Touch::Missing { addr }) is Abort,
        p.step_of(Touch::Other) is SayOther,
        p.step_of(Touch::Nothing) is SayNothing <==> p.filling is Number,
        p.step_of(Touch::Nothing) is SayOther <==> p.filling is Snapshot,
{
}

/// A numbered page is a whole page in which every byte is the number of the page, less a multiple
/// of 256.
pub proof fn numbered_page_is_full_of_its_number(page_num: nat, i: int)
    requires
        0 <= i < 4096,
    ensures
        numbered_page_of(page_num).len() == 4096,
        (page_num - numbered_page_of(page_num)[i]) % 256 == 0,
{
}

} // verus!

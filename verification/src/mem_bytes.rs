//! The bytes that the experiments with virtual memory show and leave behind.
//!
//! Here memory is as Linux keeps it for a private mapping: a byte holds what was written to it
//! last. Before that it holds zero, or what a thread of the program fills its page with
//! ([`filled_byte`]), and after it was given back it holds zero again.

use crate::fault::{Pager, PagerStep, Touch};
use crate::mem::{ByteLine, Filling, MemAction, Program};
use crate::mem_laws::lemma_place;
use vstd::prelude::*;

verus! {

/// What an action makes of the byte at `offset`, which holds `byte` before it: a write changes it,
/// and memory that was given back is filled with zeros.
pub open spec fn effect(a: MemAction, byte: u8, offset: int) -> u8 {
    match a {
        MemAction::Write { offset: o, value } => if o == offset {
            value
        } else {
            byte
        },
        MemAction::Discard { len } => if offset < len {
            0
        } else {
            byte
        },
        _ => byte,
    }
}

/// The byte at `offset` after the first `n` actions of a list, which finds `byte` there.
pub open spec fn byte_after(byte: u8, s: Seq<MemAction>, n: int, offset: int) -> u8
    decreases n,
{
    if n <= 0 {
        byte
    } else {
        effect(s[n - 1], byte_after(byte, s, n - 1, offset), offset)
    }
}

/// The byte that a program sees at `offset` when it comes to its action at place `k`.
pub open spec fn byte_seen(p: Program, byte: u8, k: int, offset: int) -> u8 {
    byte_after(byte, crate::mem::script_of(p), k, offset)
}

/// The byte that a program leaves at `offset`.
pub open spec fn byte_left(p: Program, byte: u8, offset: int) -> u8 {
    byte_after(byte, crate::mem::script_of(p), crate::mem::script_of(p).len() as int, offset)
}

/// The byte that the thread that fills pages puts at `offset`, with what the snapshot holds.
pub open spec fn filled_byte(pager: Pager, file: Seq<u8>, offset: int) -> u8 {
    let addr = pager.start + offset;
    match pager.step_of(Touch::Missing { addr: addr as usize }) {
        PagerStep::Number { page_num, dst } => crate::fault::numbered_page_of(
            page_num as nat,
        )[addr - dst],
        PagerStep::Snapshot { file_offset, dst, .. } => file[file_offset + (addr - dst)],
        _ => 0,
    }
}

proof fn lemma_same_start(byte: u8, s: Seq<MemAction>, t: Seq<MemAction>, n: int, offset: int)
    requires
        n <= s.len(),
        n <= t.len(),
        forall|i: int| 0 <= i < n ==> s[i] == t[i],
    ensures
        byte_after(byte, s, n, offset) == byte_after(byte, t, n, offset),
    decreases n,
{
    if n > 0 {
        lemma_same_start(byte, s, t, n - 1, offset);
    }
}

proof fn lemma_both(byte: u8, a: Seq<MemAction>, b: Seq<MemAction>, n: int, offset: int)
    requires
        0 <= n <= b.len(),
    ensures
        byte_after(byte, a + b, a.len() + n, offset) == byte_after(
            byte_after(byte, a, a.len() as int, offset),
            b,
            n,
            offset,
        ),
    decreases n,
{
    if n == 0 {
        lemma_same_start(byte, a + b, a, a.len() as int, offset);
    } else {
        lemma_both(byte, a, b, n - 1, offset);
        assert((a + b)[a.len() + n - 1] == b[n - 1]);
    }
}

/// The byte at `offset` before the part at place `c`.
spec fn before(p: Program, byte: u8, c: int, offset: int) -> u8 {
    let s = crate::mem::before_part(p, c);
    byte_after(byte, s, s.len() as int, offset)
}

/// Whether a part before place `c` writes to `offset`, and its page is not given back after that.
spec fn is_set(p: Program, c: int, offset: int) -> bool {
    let page = offset / 4096;
    match p {
        Program::Step2 => offset % 4096 == 0 && page + 1 < c && (page >= 10_000 || c <= 10_000)
            && page < crate::mem::pages_of(p),
        Program::Step3 => offset % 4096 == 0 && page + 1 < c && page < crate::mem::pages_of(p),
        Program::Step3Child => offset % 4096 == 0 && page + 1 < c && page < crate::mem::pages_of(
            p,
        ),
        Program::Step4 => offset == 0 && c > 0,
        Program::Step4Child => offset == 0 && c > 0,
        Program::Step5Snapshot => offset == 163_840 && c > 5,
        _ => false,
    }
}

/// Whether a part before place `c` gives the page of `offset` back.
spec fn is_given_back(p: Program, c: int, offset: int) -> bool {
    p is Step2 && offset < 40_960_000 && c > 10_000
}

spec fn content(p: Program, byte: u8, c: int, offset: int) -> u8 {
    if is_set(p, c, offset) {
        if p is Step5Snapshot {
            255
        } else {
            1
        }
    } else if is_given_back(p, c, offset) {
        0
    } else {
        byte
    }
}

proof fn lemma_part(p: Program, byte: u8, c: int, offset: int)
    requires
        0 <= c <= crate::mem::pages_of(p) + 1,
        0 <= offset,
    ensures
        ({
            let part = crate::mem::part_of(p, c);
            byte_after(content(p, byte, c, offset), part, part.len() as int, offset) == content(
                p,
                byte,
                c + 1,
                offset,
            )
        }),
{
    reveal_with_fuel(byte_after, 9);
}

proof fn lemma_content(p: Program, byte: u8, c: int, offset: int)
    requires
        0 <= c <= crate::mem::pages_of(p) + 2,
        0 <= offset,
    ensures
        before(p, byte, c, offset) == content(p, byte, c, offset),
    decreases c,
{
    if c > 0 {
        lemma_content(p, byte, c - 1, offset);
        lemma_part(p, byte, c - 1, offset);
        let part = crate::mem::part_of(p, c - 1);
        lemma_both(byte, crate::mem::before_part(p, c - 1), part, part.len() as int, offset);
    }
}

proof fn lemma_seen(p: Program, byte: u8, k: int, offset: int) -> (place: (int, int))
    requires
        0 <= k < crate::mem::script_of(p).len(),
        0 <= offset,
    ensures
        0 <= place.0 < crate::mem::pages_of(p) + 2,
        0 <= place.1 < crate::mem::part_of(p, place.0).len(),
        crate::mem::script_of(p)[k] == crate::mem::part_of(p, place.0)[place.1],
        byte_seen(p, byte, k, offset) == byte_after(
            content(p, byte, place.0, offset),
            crate::mem::part_of(p, place.0),
            place.1,
            offset,
        ),
{
    let script = crate::mem::script_of(p);
    let (c, o) = lemma_place(p, crate::mem::pages_of(p) as int + 2, k);
    let early = crate::mem::before_part(p, c);
    let part = crate::mem::part_of(p, c);
    lemma_content(p, byte, c, offset);
    lemma_both(byte, early, part, o, offset);
    assert forall|i: int| 0 <= i < k implies script[i] == (early + part)[i] by {
        assert(script.take(k)[i] == (early + part.take(o))[i]);
    }
    lemma_same_start(byte, script, early + part, k, offset);
    (c, o)
}

/// The second step sees zero in the page that it reads after giving it back, though it had written
/// 1 there.
pub proof fn given_back_page_reads_as_zero(k: int, offset: usize, line: ByteLine)
    requires
        0 <= k < crate::mem::script_of(Program::Step2).len(),
        crate::mem::script_of(Program::Step2)[k] == (MemAction::SayByte { offset, line }),
    ensures
        line == ByteLine::GivenBack,
        offset == 4096 * 9999,
        byte_seen(Program::Step2, 0, k, offset as int) == 0,
        exists|j: int|
            0 <= j < k && crate::mem::script_of(Program::Step2)[j] == (MemAction::Write {
                offset,
                value: 1,
            }),
{
    let p = Program::Step2;
    let (c, o) = lemma_seen(p, 0, k, offset as int);
    reveal_with_fuel(byte_after, 9);
    assert(c == 10_000 && o == 6);
    let (d, q) = lemma_place(p, crate::mem::pages_of(p) as int + 2, k);
    let early = crate::mem::before_part(p, d);
    assert(crate::mem::script_of(p).take(k)[early.len() as int] == crate::mem::part_of(p, d)[0]);
}

/// The second step leaves 1 in the first byte of each page from the ten-thousandth on, counted from
/// 0, and zero everywhere else: what was written before was given back.
pub proof fn second_step_leaves_ones_behind_the_given_back(offset: int)
    requires
        0 <= offset < crate::mem::GIBIBYTE,
    ensures
        byte_left(Program::Step2, 0, offset) == (if offset % 4096 == 0 && offset >= 4096 * 10_000 {
            1u8
        } else {
            0
        }),
{
    lemma_content(Program::Step2, 0, crate::mem::GIBIBYTE_PAGES + 2, offset);
}

/// The third step leaves 1 in the first byte of each page and zero everywhere else before it forks.
pub proof fn third_step_leaves_ones(offset: int)
    requires
        0 <= offset < crate::mem::GIBIBYTE,
    ensures
        byte_left(Program::Step3, 0, offset) == (if offset % 4096 == 0 {
            1u8
        } else {
            0
        }),
{
    lemma_content(Program::Step3, 0, crate::mem::GIBIBYTE_PAGES + 2, offset);
}

/// The child of the third step writes what its parent has written: it makes pages its own and
/// changes no byte.
pub proof fn child_of_the_third_step_changes_no_byte(offset: int)
    requires
        0 <= offset < crate::mem::GIBIBYTE,
    ensures
        byte_left(Program::Step3Child, byte_left(Program::Step3, 0, offset), offset) == byte_left(
            Program::Step3,
            0,
            offset,
        ),
{
    third_step_leaves_ones(offset);
    lemma_content(
        Program::Step3Child,
        byte_left(Program::Step3, 0, offset),
        crate::mem::CHILD_PAGES + 2,
        offset,
    );
}

/// The fourth step leaves 1 in its first byte and zero everywhere else, and its child changes no
/// byte either.
pub proof fn fourth_step_leaves_a_one(offset: int)
    requires
        0 <= offset < crate::mem::GIBIBYTE,
    ensures
        byte_left(Program::Step4, 0, offset) == (if offset == 0 {
            1u8
        } else {
            0
        }),
        byte_left(Program::Step4Child, byte_left(Program::Step4, 0, offset), offset) == byte_left(
            Program::Step4,
            0,
            offset,
        ),
{
    lemma_content(Program::Step4, 0, 2, offset);
    lemma_content(Program::Step4Child, byte_left(Program::Step4, 0, offset), 2, offset);
}

/// Both reads of each page of the numbered memory show the number of the page, counted from 1, and
/// the reads leave the memory as it was filled.
pub proof fn numbered_memory_shows_page_numbers(pager: Pager, file: Seq<u8>, k: int)
    requires
        pager.filling == Filling::Number,
        pager.start + crate::mem::NUMBERED_LEN <= usize::MAX,
        0 <= k < crate::mem::script_of(Program::Step5Numbered).len(),
    ensures
        crate::mem::script_of(Program::Step5Numbered)[k] matches MemAction::SayByte {
            offset,
            ..
        } ==> byte_seen(
            Program::Step5Numbered,
            filled_byte(pager, file, offset as int),
            k,
            offset as int,
        ) == offset / 4096 + 1,
        forall|offset: int|
            0 <= offset < crate::mem::NUMBERED_LEN ==> #[trigger] byte_left(
                Program::Step5Numbered,
                filled_byte(pager, file, offset),
                offset,
            ) == offset / 4096 + 1,
{
    let p = Program::Step5Numbered;
    assert forall|offset: int| 0 <= offset < crate::mem::NUMBERED_LEN implies #[trigger] byte_left(
        p,
        filled_byte(pager, file, offset),
        offset,
    ) == offset / 4096 + 1 by {
        lemma_numbered(pager, file, offset);
        lemma_content(p, filled_byte(pager, file, offset), 6, offset);
    }
    if let MemAction::SayByte { offset, .. } = crate::mem::script_of(p)[k] {
        crate::mem_laws::accesses_stay_inside(p, k);
        lemma_numbered(pager, file, offset as int);
        let (c, o) = lemma_seen(p, filled_byte(pager, file, offset as int), k, offset as int);
        reveal_with_fuel(byte_after, 5);
    }
}

proof fn lemma_numbered(pager: Pager, file: Seq<u8>, offset: int)
    requires
        pager.filling == Filling::Number,
        pager.start + crate::mem::NUMBERED_LEN <= usize::MAX,
        0 <= offset < crate::mem::NUMBERED_LEN,
    ensures
        filled_byte(pager, file, offset) == offset / 4096 + 1,
{
    let addr = (pager.start + offset) as usize;
    crate::fault::touched_page_is_filled(pager, addr, crate::mem::NUMBERED_LEN as int);
}

proof fn lemma_from_file(pager: Pager, file: Seq<u8>, offset: int)
    requires
        pager.filling == Filling::Snapshot,
        pager.start + crate::mem::SNAPSHOT_LEN <= usize::MAX,
        pager.count < i32::MAX,
        0 <= offset < crate::mem::SNAPSHOT_LEN,
    ensures
        filled_byte(pager, file, offset) == file[offset],
{
    let addr = (pager.start + offset) as usize;
    crate::fault::snapshot_keeps_its_layout(pager, addr);
}

/// The offset of the byte of the snapshot memory that is overwritten.
pub open spec fn overwritten() -> int {
    40int * 4096
}

/// Reads of the snapshot memory show what the file holds at the same offset. The one exception is
/// the byte that was overwritten, which shows 255; the byte behind it still shows the file.
pub proof fn snapshot_memory_shows_the_file(pager: Pager, file: Seq<u8>, k: int)
    requires
        pager.filling == Filling::Snapshot,
        pager.start + crate::mem::SNAPSHOT_LEN <= usize::MAX,
        pager.count < i32::MAX,
        0 <= k < crate::mem::script_of(Program::Step5Snapshot).len(),
    ensures
        match crate::mem::script_of(Program::Step5Snapshot)[k] {
            MemAction::SayByte { offset, .. } => byte_seen(
                Program::Step5Snapshot,
                filled_byte(pager, file, offset as int),
                k,
                offset as int,
            ) == (if offset == overwritten() {
                255u8
            } else {
                file[offset as int]
            }),
            MemAction::SayBytes { first, second } => {
                &&& first == overwritten()
                &&& second == overwritten() + 1
                &&& byte_seen(
                    Program::Step5Snapshot,
                    filled_byte(pager, file, first as int),
                    k,
                    first as int,
                ) == 255
                &&& byte_seen(
                    Program::Step5Snapshot,
                    filled_byte(pager, file, second as int),
                    k,
                    second as int,
                ) == file[second as int]
            },
            _ => true,
        },
{
    let p = Program::Step5Snapshot;
    crate::mem_laws::accesses_stay_inside(p, k);
    reveal_with_fuel(byte_after, 5);
    match crate::mem::script_of(p)[k] {
        MemAction::SayByte { offset, .. } => {
            lemma_from_file(pager, file, offset as int);
            let (c, o) = lemma_seen(p, filled_byte(pager, file, offset as int), k, offset as int);
        },
        MemAction::SayBytes { first, second } => {
            lemma_from_file(pager, file, first as int);
            lemma_from_file(pager, file, second as int);
            let (c, o) = lemma_seen(p, filled_byte(pager, file, first as int), k, first as int);
            let (d, q) = lemma_seen(p, filled_byte(pager, file, second as int), k, second as int);
        },
        _ => {},
    }
}

/// The snapshot memory ends as the file, but for the byte that was overwritten.
pub proof fn snapshot_memory_ends_as_the_file(pager: Pager, file: Seq<u8>, offset: int)
    requires
        pager.filling == Filling::Snapshot,
        pager.start + crate::mem::SNAPSHOT_LEN <= usize::MAX,
        pager.count < i32::MAX,
        0 <= offset < crate::mem::SNAPSHOT_LEN,
    ensures
        byte_left(Program::Step5Snapshot, filled_byte(pager, file, offset), offset) == (if offset
            == overwritten() {
            255u8
        } else {
            file[offset]
        }),
{
    lemma_from_file(pager, file, offset);
    lemma_content(Program::Step5Snapshot, filled_byte(pager, file, offset), 22, offset);
}

} // verus!

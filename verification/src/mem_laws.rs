//! What holds of the experiments with virtual memory.

use crate::mem::{ByteLine, MemAction, MemMessage, Outcome, Program, RunView};
use crate::run::ChildEnd;
use vstd::prelude::*;

verus! {

/// How many bytes of memory a program works on.
pub open spec fn mapped_len(p: Program) -> nat {
    match p {
        Program::Step5Numbered => crate::mem::NUMBERED_LEN as nat,
        Program::Step5Snapshot => crate::mem::SNAPSHOT_LEN as nat,
        _ => crate::mem::GIBIBYTE as nat,
    }
}

/// Whether an action touches the mapped memory.
pub open spec fn touches(a: MemAction) -> bool {
    a is Write || a is Discard || a is SayByte || a is SayBytes || a is Register || a is SayEntry
}

/// Whether what an action touches lies inside `len` bytes.
pub open spec fn lies_inside(a: MemAction, len: nat) -> bool {
    match a {
        MemAction::Write { offset, .. } => offset < len,
        MemAction::SayByte { offset, .. } => offset < len,
        MemAction::SayBytes { first, second } => first < len && second < len,
        MemAction::Discard { len: l } => l <= len,
        MemAction::Register { len: l } => l <= len,
        MemAction::SayEntry(_) => 0 < len,
        _ => true,
    }
}

/// The offsets that a list of actions writes to, in order.
pub open spec fn writes_of(s: Seq<MemAction>) -> Seq<int>
    decreases s.len(),
{
    if s.len() == 0 {
        Seq::empty()
    } else {
        match s.last() {
            MemAction::Write { offset, .. } => writes_of(s.drop_last()).push(offset as int),
            _ => writes_of(s.drop_last()),
        }
    }
}

/// The offsets of the first `n` pages.
pub open spec fn page_offsets(n: nat) -> Seq<int> {
    Seq::new(n, |i: int| 4096 * i)
}

pub proof fn lemma_writes_of_both(a: Seq<MemAction>, b: Seq<MemAction>)
    ensures
        writes_of(a + b) == writes_of(a) + writes_of(b),
    decreases b.len(),
{
    if b.len() == 0 {
        assert(a + b =~= a);
        assert(writes_of(a) + writes_of(b) =~= writes_of(a));
    } else {
        lemma_writes_of_both(a, b.drop_last());
        assert((a + b).drop_last() =~= a + b.drop_last());
        assert(writes_of(a + b) =~= writes_of(a) + writes_of(b));
    }
}

/// Where an action of a program stands: in which part, and at which place of the part.
pub proof fn lemma_place(p: Program, c: int, k: int) -> (place: (int, int))
    requires
        0 <= k < crate::mem::before_part(p, c).len(),
    ensures
        0 <= place.0 < c,
        0 <= place.1 < crate::mem::part_of(p, place.0).len(),
        crate::mem::before_part(p, c)[k] == crate::mem::part_of(p, place.0)[place.1],
        k == crate::mem::before_part(p, place.0).len() + place.1,
        crate::mem::before_part(p, c).take(k) == crate::mem::before_part(p, place.0)
            + crate::mem::part_of(p, place.0).take(place.1),
    decreases c,
{
    let early = crate::mem::before_part(p, c - 1);
    let all = crate::mem::before_part(p, c);
    if k < early.len() {
        let place = lemma_place(p, c - 1, k);
        assert(all.take(k) =~= early.take(k));
        place
    } else {
        let o = k - early.len();
        assert(all.take(k) =~= early + crate::mem::part_of(p, c - 1).take(o));
        (c - 1, o)
    }
}

/// Every byte that a program touches lies inside the memory that was mapped.
pub proof fn accesses_stay_inside(p: Program, k: int)
    requires
        0 <= k < crate::mem::script_of(p).len(),
    ensures
        lies_inside(crate::mem::script_of(p)[k], mapped_len(p)),
{
    let (c, o) = lemma_place(p, crate::mem::pages_of(p) as int + 2, k);
}

/// Whether a program is one that a user can start, and not the continuation of another.
pub open spec fn is_start(p: Program) -> bool {
    p is Step2 || p is Step3 || p is Step4 || p is Step5Numbered || p is Step5Snapshot
}

proof fn lemma_prologue_first(p: Program, k: int)
    requires
        0 <= k < crate::mem::prologue_of(p).len(),
    ensures
        k < crate::mem::script_of(p).len(),
        crate::mem::script_of(p)[k] == crate::mem::prologue_of(p)[k],
{
    let n = crate::mem::pages_of(p) as int + 2;
    crate::mem::lemma_before_part_grows(p, 1, n);
    assert(crate::mem::before_part(p, 1) =~= crate::mem::prologue_of(p)) by {
        assert(crate::mem::before_part(p, 0) =~= Seq::empty());
    }
    assert(crate::mem::script_of(p).take(crate::mem::prologue_of(p).len() as int)[k]
        == crate::mem::prologue_of(p)[k]);
}

/// A program that a user can start maps its memory, all of it and no other, before it touches any
/// of it.
pub proof fn memory_is_mapped_before_use(p: Program, k: int)
    requires
        is_start(p),
        0 <= k < crate::mem::script_of(p).len(),
    ensures
        crate::mem::script_of(p)[k] matches MemAction::MapMemory { len } ==> len == mapped_len(p),
        touches(crate::mem::script_of(p)[k]) ==> exists|j: int|
            0 <= j < k && #[trigger] crate::mem::script_of(p)[j] is MapMemory,
{
    let (c, o) = lemma_place(p, crate::mem::pages_of(p) as int + 2, k);
    let m: int = if p is Step2 {
        5
    } else {
        0
    };
    lemma_prologue_first(p, m);
    if c > 0 {
        crate::mem::lemma_before_part_grows(p, 1, c);
        assert(crate::mem::before_part(p, 1) =~= crate::mem::prologue_of(p)) by {
            assert(crate::mem::before_part(p, 0) =~= Seq::empty());
        }
    }
    assert(crate::mem::script_of(p)[m] is MapMemory);
}

pub proof fn lemma_writes_of_none(s: Seq<MemAction>)
    requires
        forall|i: int| 0 <= i < s.len() ==> !(#[trigger] s[i] is Write),
    ensures
        writes_of(s) == Seq::<int>::empty(),
    decreases s.len(),
{
    if s.len() > 0 {
        lemma_writes_of_none(s.drop_last());
    }
}

/// Whether a program writes to each page that it walks over.
pub open spec fn fills(p: Program) -> bool {
    p is Step2 || p is Step3 || p is Step3Child
}

pub proof fn lemma_page_writes(p: Program, i: int, o: int)
    requires
        fills(p),
        0 <= i < crate::mem::pages_of(p),
        0 <= o <= crate::mem::page_of(p, i).len(),
    ensures
        writes_of(crate::mem::page_of(p, i).take(o)) == (if o == 0 {
            Seq::empty()
        } else {
            seq![4096 * i]
        }),
{
    let s = crate::mem::page_of(p, i);
    if o == 0 {
        assert(s.take(0) =~= Seq::empty());
    } else {
        let rest = s.subrange(1, o);
        assert(s.take(o) =~= s.take(1) + rest);
        lemma_writes_of_both(s.take(1), rest);
        assert forall|j: int| 0 <= j < rest.len() implies !(#[trigger] rest[j] is Write) by {
            assert(rest[j] == s[j + 1]);
        }
        lemma_writes_of_none(rest);
        assert(s.take(1).drop_last() =~= Seq::empty());
        assert(s.take(1).last() == (MemAction::Write { offset: (4096 * i) as usize, value: 1 }));
        assert(writes_of(s.take(1).drop_last()) =~= Seq::empty());
        assert(writes_of(s.take(1)) =~= seq![4096 * i]);
        assert(writes_of(s.take(o)) =~= seq![4096 * i]);
    }
}

proof fn lemma_part_writes(p: Program, c: int)
    requires
        fills(p),
        0 <= c <= crate::mem::pages_of(p) + 1,
    ensures
        writes_of(crate::mem::part_of(p, c)) == (if 0 < c <= crate::mem::pages_of(p) {
            seq![4096 * (c - 1)]
        } else {
            Seq::empty()
        }),
{
    let part = crate::mem::part_of(p, c);
    if 0 < c <= crate::mem::pages_of(p) {
        lemma_page_writes(p, c - 1, part.len() as int);
        assert(part.take(part.len() as int) =~= part);
        assert(part.len() > 0);
    } else {
        lemma_writes_of_none(part);
    }
}

/// How many pages are written before the part at place `c`.
pub open spec fn written_before(p: Program, c: int) -> nat {
    if c <= 1 {
        0
    } else if c <= crate::mem::pages_of(p) + 1 {
        (c - 1) as nat
    } else {
        crate::mem::pages_of(p)
    }
}

pub proof fn lemma_writes_before(p: Program, c: int)
    requires
        fills(p),
        0 <= c <= crate::mem::pages_of(p) + 2,
    ensures
        writes_of(crate::mem::before_part(p, c)) == page_offsets(written_before(p, c)),
    decreases c,
{
    if c > 0 {
        lemma_writes_before(p, c - 1);
        lemma_part_writes(p, c - 1);
        lemma_writes_of_both(crate::mem::before_part(p, c - 1), crate::mem::part_of(p, c - 1));
    }
    assert(writes_of(crate::mem::before_part(p, c)) =~= page_offsets(written_before(p, c)));
}

/// A program that fills memory writes to each page once, from the first page to the last: to all
/// pages of a gibibyte, or to the first ten thousand in the child of a `fork`.
pub proof fn each_page_is_written_once(p: Program)
    requires
        fills(p),
    ensures
        writes_of(crate::mem::script_of(p)) == page_offsets(crate::mem::pages_of(p)),
        p is Step2 || p is Step3 ==> 4096 * crate::mem::pages_of(p) == mapped_len(p),
{
    lemma_writes_before(p, crate::mem::pages_of(p) as int + 2);
}

/// A report of so many written pages comes when just so many were written, and it comes at 100,
/// 1000 and 10000 pages only.
pub proof fn reports_count_the_written_pages(k: int, n: usize)
    requires
        0 <= k < crate::mem::script_of(Program::Step2).len(),
        crate::mem::script_of(Program::Step2)[k] == MemAction::Say(MemMessage::PagesWritten(n)),
    ensures
        writes_of(crate::mem::script_of(Program::Step2).take(k)).len() == n,
        crate::mem::is_checkpoint(n as int),
{
    let p = Program::Step2;
    let (c, o) = lemma_place(p, crate::mem::pages_of(p) as int + 2, k);
    lemma_writes_before(p, c);
    lemma_page_writes(p, c - 1, o);
    lemma_writes_of_both(crate::mem::before_part(p, c), crate::mem::part_of(p, c).take(o));
}

/// Each of the three reports does come.
pub proof fn each_checkpoint_is_reported(n: usize) -> (k: int)
    requires
        crate::mem::is_checkpoint(n as int),
    ensures
        0 <= k < crate::mem::script_of(Program::Step2).len(),
        crate::mem::script_of(Program::Step2)[k] == MemAction::Say(MemMessage::PagesWritten(n)),
{
    let p = Program::Step2;
    let c = n as int;
    let early = crate::mem::before_part(p, c);
    let here = crate::mem::before_part(p, c + 1);
    crate::mem::lemma_before_part_grows(p, c + 1, crate::mem::pages_of(p) as int + 2);
    let k: int = early.len() as int + 1;
    assert(crate::mem::part_of(p, c)[1] == MemAction::Say(MemMessage::PagesWritten(n)));
    assert(here == early + crate::mem::part_of(p, c));
    assert(here[k] == crate::mem::part_of(p, c)[1]);
    assert(crate::mem::script_of(p).take(here.len() as int)[k] == here[k]);
    k
}

/// What is given back is what was written so far, to the byte; the usage is shown right after, and
/// then the last page of it is read again.
pub proof fn written_pages_are_given_back(k: int, len: usize)
    requires
        0 <= k < crate::mem::script_of(Program::Step2).len(),
        crate::mem::script_of(Program::Step2)[k] == (MemAction::Discard { len }),
    ensures
        len == 4096 * writes_of(crate::mem::script_of(Program::Step2).take(k)).len(),
        k + 2 < crate::mem::script_of(Program::Step2).len(),
        crate::mem::script_of(Program::Step2)[k + 1] == MemAction::ShowUsage(None),
        crate::mem::script_of(Program::Step2)[k + 2] matches MemAction::SayByte {
            offset,
            line: ByteLine::GivenBack,
        } && offset + 4096 == len,
{
    let p = Program::Step2;
    let (c, o) = lemma_place(p, crate::mem::pages_of(p) as int + 2, k);
    lemma_writes_before(p, c);
    lemma_page_writes(p, c - 1, o);
    lemma_writes_of_both(crate::mem::before_part(p, c), crate::mem::part_of(p, c).take(o));
    let here = crate::mem::before_part(p, c + 1);
    crate::mem::lemma_before_part_grows(p, c + 1, crate::mem::pages_of(p) as int + 2);
    assert(here == crate::mem::before_part(p, c) + crate::mem::part_of(p, c));
    assert(crate::mem::script_of(p).take(here.len() as int)[k + 1] == here[k + 1]);
    assert(crate::mem::script_of(p).take(here.len() as int)[k + 2] == here[k + 2]);
}

pub proof fn lemma_only_prologue(p: Program)
    requires
        crate::mem::pages_of(p) == 0,
        crate::mem::epilogue_of(p).len() == 0,
    ensures
        crate::mem::script_of(p) == crate::mem::prologue_of(p),
{
    reveal_with_fuel(crate::mem::before_part, 3);
    assert(crate::mem::script_of(p) =~= crate::mem::prologue_of(p));
}

/// The parent of the third step ends as its child did: with the status of a child that exited, and
/// with 128 otherwise. The last action of the program that goes on after the wait says so.
pub proof fn third_step_ends_as_its_child(child: i32, end: ChildEnd)
    ensures
        ({
            let s = crate::mem::script_of(
                crate::mem::after_wait(Program::Step3Parent { child }, end),
            );
            s.len() > 0 && s.last() == MemAction::Exit(
                match end {
                    ChildEnd::Exited { pid, status } => status,
                    _ => 128,
                },
            )
        }),
{
    lemma_only_prologue(crate::mem::after_wait(Program::Step3Parent { child }, end));
}

/// The parent of the fourth step ends with 0 if its child exited, and with 128 otherwise.
pub proof fn fourth_step_ends_well_with_its_child(child: i32, end: ChildEnd)
    ensures
        ({
            let s = crate::mem::script_of(
                crate::mem::after_wait(Program::Step4Parent { child }, end),
            );
            s.len() > 0 && s.last() == MemAction::Exit(
                if end is Exited {
                    0
                } else {
                    128
                },
            )
        }),
{
    lemma_only_prologue(crate::mem::after_wait(Program::Step4Parent { child }, end));
}

/// A child always exits, with 0, and a process that could not fork exits with 1: neither goes on
/// with what its parent does.
pub proof fn fork_leaves_no_stray_process(p: Program, outcome: Outcome)
    requires
        p is Step3 || p is Step4,
        outcome is InChild || outcome is NotForked,
    ensures
        ({
            let s = crate::mem::script_of(crate::mem::after_fork(p, outcome));
            s.len() > 0 && s.last() == MemAction::Exit(
                if outcome is InChild {
                    0
                } else {
                    1
                },
            )
        }),
{
    let q = crate::mem::after_fork(p, outcome);
    if q is Step3Child {
        let n = crate::mem::pages_of(q) as int + 2;
        assert(crate::mem::before_part(q, n) == crate::mem::before_part(q, n - 1)
            + crate::mem::epilogue_of(q));
    } else {
        lemma_only_prologue(q);
    }
}

/// A run stops only at the end of its program: as long as there is an action, its outcome brings
/// the run one action on or to the start of another program.
pub proof fn outcome_brings_the_run_on(r: RunView, outcome: Outcome)
    requires
        r.expects(outcome),
    ensures
        outcome is Done ==> r.next(outcome) == (RunView { program: r.program, done: r.done + 1 }),
        !(outcome is Done) ==> r.next(outcome).done == 0 && !is_start(r.next(outcome).program),
{
}

} // verus!

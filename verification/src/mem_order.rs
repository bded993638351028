//! In which order the experiments show things: what a reader sees, and how much was written when
//! they see it.

use crate::mem::{
    AddressLine, ByteLine, EntryLine, Filling, Label, MemAction, MemMessage, Outcome, Program,
    RunView,
};
use crate::mem_laws::{
    lemma_only_prologue, lemma_page_writes, lemma_place, lemma_writes_before,
    lemma_writes_of_both,
};
use crate::run::ChildEnd;
use vstd::prelude::*;

verus! {

/// The actions of a list that are no writes, in order.
pub open spec fn shown_of(s: Seq<MemAction>) -> Seq<MemAction>
    decreases s.len(),
{
    if s.len() == 0 {
        Seq::empty()
    } else if s.last() is Write {
        shown_of(s.drop_last())
    } else {
        shown_of(s.drop_last()).push(s.last())
    }
}

proof fn lemma_shown_of_both(a: Seq<MemAction>, b: Seq<MemAction>)
    ensures
        shown_of(a + b) == shown_of(a) + shown_of(b),
    decreases b.len(),
{
    if b.len() == 0 {
        assert(a + b =~= a);
        assert(shown_of(a) + shown_of(b) =~= shown_of(a));
    } else {
        lemma_shown_of_both(a, b.drop_last());
        assert((a + b).drop_last() =~= a + b.drop_last());
        assert(shown_of(a + b) =~= shown_of(a) + shown_of(b));
    }
}

proof fn lemma_shown_of_all(s: Seq<MemAction>)
    requires
        forall|i: int| 0 <= i < s.len() ==> !(#[trigger] s[i] is Write),
    ensures
        shown_of(s) == s,
    decreases s.len(),
{
    if s.len() > 0 {
        lemma_shown_of_all(s.drop_last());
        assert(s.drop_last().push(s.last()) =~= s);
    } else {
        assert(s =~= Seq::empty());
    }
}

/// What a page shows, up to place `o` of its actions: everything behind the write.
proof fn lemma_page_shows(p: Program, i: int, o: int)
    requires
        crate::mem_laws::fills(p),
        0 <= i < crate::mem::pages_of(p),
        0 <= o <= crate::mem::page_of(p, i).len(),
    ensures
        shown_of(crate::mem::page_of(p, i).take(o)) == (if o == 0 {
            Seq::empty()
        } else {
            crate::mem::page_of(p, i).subrange(1, o)
        }),
        crate::mem::page_of(p, i).len() > 0,
        crate::mem::page_of(p, i)[0] is Write,
{
    let s = crate::mem::page_of(p, i);
    assert(s.len() > 0 && s[0] is Write);
    if o == 0 {
        assert(s.take(0) =~= Seq::empty());
    } else {
        let rest = s.subrange(1, o);
        assert(s.take(o) =~= s.take(1) + rest);
        lemma_shown_of_both(s.take(1), rest);
        assert forall|j: int| 0 <= j < rest.len() implies !(#[trigger] rest[j] is Write) by {
            assert(rest[j] == s[j + 1]);
        }
        lemma_shown_of_all(rest);
        assert(s.take(1).drop_last() =~= Seq::empty());
        assert(s.take(1).last() is Write);
        assert(shown_of(s.take(1).drop_last()) =~= Seq::empty());
        assert(shown_of(s.take(1)) =~= Seq::empty());
        assert(shown_of(s.take(o)) =~= rest);
    }
}

/// What is shown when `n` pages have been written to.
pub open spec fn report_at(n: usize) -> Seq<MemAction> {
    seq![MemAction::Say(MemMessage::PagesWritten(n)), MemAction::ShowUsage(None)]
}

/// What the second step shows before it writes.
pub open spec fn second_step_opening() -> Seq<MemAction> {
    seq![
        MemAction::LoadMappings,
        MemAction::SayTotal,
        MemAction::ShowUsage(None),
        MemAction::SayMappings,
        MemAction::Say(MemMessage::MapStarts),
        MemAction::MapMemory { len: 0x4000_0000 },
        MemAction::SayAddress(AddressLine::Mapped),
        MemAction::ShowUsage(None),
    ]
}

/// What the second step shows when it gives memory back.
pub open spec fn second_step_giving_back() -> Seq<MemAction> {
    seq![
        MemAction::Say(MemMessage::GivingBack),
        MemAction::Discard { len: 40_960_000 },
        MemAction::ShowUsage(None),
        MemAction::SayByte { offset: 40_955_904, line: ByteLine::GivenBack },
    ]
}

/// What the second step shows after it has written everything.
pub open spec fn second_step_closing() -> Seq<MemAction> {
    seq![
        MemAction::Say(MemMessage::MapDone),
        MemAction::LoadMappings,
        MemAction::SayTotal,
        MemAction::ShowUsage(None),
        MemAction::SayMappings,
    ]
}

spec fn second_step_shown_before(c: int) -> Seq<MemAction> {
    (if c > 0 {
        second_step_opening()
    } else {
        Seq::empty()
    }) + (if c > 100 {
        report_at(100)
    } else {
        Seq::empty()
    }) + (if c > 1000 {
        report_at(1000)
    } else {
        Seq::empty()
    }) + (if c > 10_000 {
        report_at(10_000) + second_step_giving_back()
    } else {
        Seq::empty()
    }) + (if c > 262_145 {
        second_step_closing()
    } else {
        Seq::empty()
    })
}

proof fn lemma_second_step_page(i: int)
    requires
        0 <= i < 262_144,
    ensures
        ({
            let s = crate::mem::page_of(Program::Step2, i);
            s.subrange(1, s.len() as int) == (if i == 99 {
                report_at(100)
            } else if i == 999 {
                report_at(1000)
            } else if i == 9999 {
                report_at(10_000) + second_step_giving_back()
            } else {
                Seq::empty()
            })
        }),
{
    let s = crate::mem::page_of(Program::Step2, i);
    if i == 99 {
        assert(s.subrange(1, s.len() as int) =~= report_at(100));
    } else if i == 999 {
        assert(s.subrange(1, s.len() as int) =~= report_at(1000));
    } else if i == 9999 {
        assert(s.subrange(1, s.len() as int) =~= report_at(10_000) + second_step_giving_back());
    } else {
        assert(s.len() == 1);
        assert(s.subrange(1, s.len() as int) =~= Seq::empty());
    }
}

proof fn lemma_second_step_shown(c: int)
    requires
        0 <= c <= 262_146,
    ensures
        shown_of(crate::mem::before_part(Program::Step2, c)) == second_step_shown_before(c),
    decreases c,
{
    let p = Program::Step2;
    if c == 0 {
        assert(second_step_shown_before(0) =~= Seq::empty());
    } else {
        lemma_second_step_shown(c - 1);
        let part = crate::mem::part_of(p, c - 1);
        lemma_shown_of_both(crate::mem::before_part(p, c - 1), part);
        if c == 1 {
            lemma_shown_of_all(part);
            assert(part =~= second_step_opening());
        } else if c <= 262_145 {
            lemma_page_shows(p, c - 2, part.len() as int);
            assert(part.take(part.len() as int) =~= part);
            lemma_second_step_page(c - 2);
        } else {
            lemma_shown_of_all(part);
            assert(part =~= second_step_closing());
        }
        assert(second_step_shown_before(c) =~= second_step_shown_before(c - 1) + shown_of(part));
    }
}

/// What a reader of the second step sees, from the first line to the last: the map and the usage
/// before memory is mapped, the usage after that, a report with the usage at 100, 1000 and 10000
/// pages, the usage and a byte after memory was given back, and the map and the usage at the end.
pub proof fn second_step_shows_everything_in_order()
    ensures
        shown_of(crate::mem::script_of(Program::Step2)) == second_step_opening() + report_at(100)
            + report_at(1000) + report_at(10_000) + second_step_giving_back()
            + second_step_closing(),
{
    lemma_second_step_shown(262_146);
    assert(second_step_shown_before(262_146) =~= second_step_opening() + report_at(100) + report_at(
        1000,
    ) + report_at(10_000) + second_step_giving_back() + second_step_closing());
}

/// How many pages were written to when the second step has shown `j` things and shows another.
pub open spec fn second_step_written_at(j: nat) -> nat {
    if j < 8 {
        0
    } else if j < 10 {
        100
    } else if j < 12 {
        1000
    } else if j < 18 {
        10_000
    } else {
        262_144
    }
}

/// Everything that the second step shows comes when so many pages were written as belong to it:
/// none before the first report, all of them at the end.
pub proof fn second_step_shows_at_the_right_time(k: int)
    requires
        0 <= k < crate::mem::script_of(Program::Step2).len(),
        !(crate::mem::script_of(Program::Step2)[k] is Write),
    ensures
        crate::mem_laws::writes_of(crate::mem::script_of(Program::Step2).take(k)).len()
            == second_step_written_at(
            shown_of(crate::mem::script_of(Program::Step2).take(k)).len(),
        ),
{
    let p = Program::Step2;
    let (c, o) = lemma_place(p, 262_146, k);
    let early = crate::mem::before_part(p, c);
    let part = crate::mem::part_of(p, c);
    lemma_writes_before(p, c);
    lemma_second_step_shown(c);
    lemma_writes_of_both(early, part.take(o));
    lemma_shown_of_both(early, part.take(o));
    if 1 <= c <= 262_144 {
        lemma_page_writes(p, c - 1, o);
        lemma_page_shows(p, c - 1, o);
        lemma_second_step_page(c - 1);
        assert(part.len() > 1);
    } else {
        assert forall|i: int| 0 <= i < part.take(o).len() implies !(#[trigger] part.take(
            o,
        )[i] is Write) by {
            assert(part.take(o)[i] == part[i]);
        }
        lemma_shown_of_all(part.take(o));
        crate::mem_laws::lemma_writes_of_none(part.take(o));
    }
}

spec fn shown_around(first: Seq<MemAction>, last: Seq<MemAction>, n: nat, c: int) -> Seq<MemAction> {
    (if c > 0 {
        first
    } else {
        Seq::empty()
    }) + (if c > n + 1 {
        last
    } else {
        Seq::empty()
    })
}

proof fn lemma_plain_shown(p: Program, first: Seq<MemAction>, last: Seq<MemAction>, c: int)
    requires
        p is Step3 || p is Step3Child,
        first == crate::mem::prologue_of(p),
        last == crate::mem::epilogue_of(p),
        0 <= c <= crate::mem::pages_of(p) + 2,
    ensures
        shown_of(crate::mem::before_part(p, c)) == shown_around(
            first,
            last,
            crate::mem::pages_of(p),
            c,
        ),
    decreases c,
{
    let n = crate::mem::pages_of(p);
    if c == 0 {
        assert(shown_around(first, last, n, 0) =~= Seq::empty());
    } else {
        lemma_plain_shown(p, first, last, c - 1);
        let part = crate::mem::part_of(p, c - 1);
        lemma_shown_of_both(crate::mem::before_part(p, c - 1), part);
        if 1 < c <= n + 1 {
            lemma_page_shows(p, c - 2, part.len() as int);
            assert(part.take(part.len() as int) =~= part);
            assert(part.len() == 1);
            assert(shown_of(part) =~= Seq::empty());
        } else {
            lemma_shown_of_all(part);
        }
        assert(shown_around(first, last, n, c) =~= shown_around(first, last, n, c - 1) + shown_of(
            part,
        ));
    }
}

proof fn lemma_plain_time(p: Program, k: int)
    requires
        p is Step3 || p is Step3Child,
        0 <= k < crate::mem::script_of(p).len(),
        !(crate::mem::script_of(p)[k] is Write),
    ensures
        ({
            let early = crate::mem::script_of(p).take(k);
            crate::mem_laws::writes_of(early).len() == (if shown_of(early).len()
                < crate::mem::prologue_of(p).len() {
                0
            } else {
                crate::mem::pages_of(p)
            })
        }),
{
    let n = crate::mem::pages_of(p);
    let first = crate::mem::prologue_of(p);
    let last = crate::mem::epilogue_of(p);
    let (c, o) = lemma_place(p, n as int + 2, k);
    let early = crate::mem::before_part(p, c);
    let part = crate::mem::part_of(p, c);
    lemma_writes_before(p, c);
    lemma_plain_shown(p, first, last, c);
    lemma_writes_of_both(early, part.take(o));
    lemma_shown_of_both(early, part.take(o));
    if 1 <= c <= n {
        lemma_page_shows(p, c - 1, o);
        assert(part.len() == 1);
        assert(false);
    } else {
        assert forall|i: int| 0 <= i < part.take(o).len() implies !(#[trigger] part.take(
            o,
        )[i] is Write) by {
            assert(part.take(o)[i] == part[i]);
        }
        lemma_shown_of_all(part.take(o));
        crate::mem_laws::lemma_writes_of_none(part.take(o));
    }
}

/// The third step maps its memory before it writes, and forks when all of it was written; it shows
/// nothing else.
pub proof fn third_step_forks_after_writing(k: int)
    requires
        0 <= k < crate::mem::script_of(Program::Step3).len(),
        !(crate::mem::script_of(Program::Step3)[k] is Write),
    ensures
        shown_of(crate::mem::script_of(Program::Step3)) == seq![
            MemAction::MapMemory { len: 0x4000_0000 },
            MemAction::Fork,
        ],
        crate::mem_laws::writes_of(crate::mem::script_of(Program::Step3).take(k)).len() == (
        if crate::mem::script_of(Program::Step3)[k] is Fork {
            262_144nat
        } else {
            0
        }),
{
    let p = Program::Step3;
    lemma_plain_shown(p, crate::mem::prologue_of(p), crate::mem::epilogue_of(p), 262_146);
    assert(shown_of(crate::mem::script_of(p)) =~= seq![
        MemAction::MapMemory { len: 0x4000_0000 },
        MemAction::Fork,
    ]);
    lemma_plain_time(p, k);
    lemma_shown_place(p, k);
}

/// What is shown at place `k` stands in the list of what is shown behind what was shown before.
proof fn lemma_shown_place(p: Program, k: int)
    requires
        0 <= k < crate::mem::script_of(p).len(),
        !(crate::mem::script_of(p)[k] is Write),
    ensures
        shown_of(crate::mem::script_of(p).take(k)).len() < shown_of(crate::mem::script_of(p)).len(),
        shown_of(crate::mem::script_of(p))[shown_of(crate::mem::script_of(p).take(k)).len() as int]
            == crate::mem::script_of(p)[k],
{
    let s = crate::mem::script_of(p);
    let one = seq![s[k]];
    let rest = s.skip(k + 1);
    assert(s =~= s.take(k) + (one + rest));
    lemma_shown_of_both(s.take(k), one + rest);
    lemma_shown_of_both(one, rest);
    lemma_shown_of_all(one);
}

/// The child of the third step shows the usage and what is shared and private before its first
/// write, and both again after its last, each under its label; then it exits. Nothing is shown in
/// between.
pub proof fn child_of_the_third_step_reports_around_its_writes(k: int)
    requires
        0 <= k < crate::mem::script_of(Program::Step3Child).len(),
        !(crate::mem::script_of(Program::Step3Child)[k] is Write),
    ensures
        shown_of(crate::mem::script_of(Program::Step3Child)) == seq![
            MemAction::ShowUsage(Some(Label::ChildBeforeWrite)),
            MemAction::ShowRollup(Label::ChildBeforeWrite),
            MemAction::ShowUsage(Some(Label::ChildAfterWrite)),
            MemAction::ShowRollup(Label::ChildAfterWrite),
            MemAction::Exit(0),
        ],
        crate::mem_laws::writes_of(crate::mem::script_of(Program::Step3Child).take(k)).len() == (
        match crate::mem::script_of(Program::Step3Child)[k] {
            MemAction::ShowUsage(Some(Label::ChildBeforeWrite)) => 0nat,
            MemAction::ShowRollup(Label::ChildBeforeWrite) => 0,
            _ => 10_000,
        }),
{
    let p = Program::Step3Child;
    let all = seq![
        MemAction::ShowUsage(Some(Label::ChildBeforeWrite)),
        MemAction::ShowRollup(Label::ChildBeforeWrite),
        MemAction::ShowUsage(Some(Label::ChildAfterWrite)),
        MemAction::ShowRollup(Label::ChildAfterWrite),
        MemAction::Exit(0),
    ];
    lemma_plain_shown(p, crate::mem::prologue_of(p), crate::mem::epilogue_of(p), 10_002);
    assert(shown_of(crate::mem::script_of(p)) =~= all);
    lemma_plain_time(p, k);
    lemma_shown_place(p, k);
}

/// The parent of the third step shows the usage and what is shared and private right before it
/// waits for its child, and both again right after, each under its label. In between it says which
/// process exited with which status, and at last it exits with that status. It writes nothing.
pub proof fn parent_of_the_third_step_reports_around_its_wait(child: i32, pid: i32, status: i32)
    ensures
        ({
            let p = crate::mem::after_fork(Program::Step3, Outcome::Forked { child });
            let q = crate::mem::after_wait(p, ChildEnd::Exited { pid, status });
            crate::mem::script_of(p) + crate::mem::script_of(q) == seq![
                MemAction::ShowUsage(Some(Label::ParentBeforeWait)),
                MemAction::ShowRollup(Label::ParentBeforeWait),
                MemAction::Wait { child },
                MemAction::Say(MemMessage::ChildExited { pid, status }),
                MemAction::ShowUsage(Some(Label::ParentAfterWait)),
                MemAction::ShowRollup(Label::ParentAfterWait),
                MemAction::Exit(status),
            ] && crate::mem::script_of(p).last() is Wait
        }),
{
    let p = crate::mem::after_fork(Program::Step3, Outcome::Forked { child });
    let q = crate::mem::after_wait(p, ChildEnd::Exited { pid, status });
    lemma_only_prologue(p);
    lemma_only_prologue(q);
    assert(crate::mem::script_of(p) + crate::mem::script_of(q) =~= seq![
        MemAction::ShowUsage(Some(Label::ParentBeforeWait)),
        MemAction::ShowRollup(Label::ParentBeforeWait),
        MemAction::Wait { child },
        MemAction::Say(MemMessage::ChildExited { pid, status }),
        MemAction::ShowUsage(Some(Label::ParentAfterWait)),
        MemAction::ShowRollup(Label::ParentAfterWait),
        MemAction::Exit(status),
    ]);
}

/// The fourth step shows the entry of its page after it has written to it and before it forks. The
/// parent shows it right before and right after its wait; the child shows it before and after it
/// writes to the page. Each has its label, and nothing else is shown.
pub proof fn fourth_step_shows_the_entry_around_fork_wait_and_write(
    child: i32,
    pid: i32,
    status: i32,
)
    ensures
        ({
            let p = crate::mem::after_fork(Program::Step4, Outcome::Forked { child });
            let q = crate::mem::after_wait(p, ChildEnd::Exited { pid, status });
            let r = crate::mem::after_fork(Program::Step4, Outcome::InChild);
            let write = MemAction::Write { offset: 0, value: 1 };
            &&& crate::mem::script_of(Program::Step4) + crate::mem::script_of(p)
                + crate::mem::script_of(q) == seq![
                MemAction::MapMemory { len: 0x4000_0000 },
                write,
                MemAction::SayEntry(EntryLine::BeforeFork),
                MemAction::Fork,
                MemAction::SayEntry(EntryLine::ParentBeforeWait),
                MemAction::Wait { child },
                MemAction::SayEntry(EntryLine::ParentAfterWait),
                MemAction::Exit(0),
            ]
            &&& crate::mem::script_of(Program::Step4).last() is Fork
            &&& crate::mem::script_of(p).last() is Wait
            &&& crate::mem::script_of(r) == seq![
                MemAction::SayEntry(EntryLine::ChildBeforeWrite),
                write,
                MemAction::SayEntry(EntryLine::ChildAfterWrite),
                MemAction::Exit(0),
            ]
        }),
{
    let p = crate::mem::after_fork(Program::Step4, Outcome::Forked { child });
    let q = crate::mem::after_wait(p, ChildEnd::Exited { pid, status });
    let r = crate::mem::after_fork(Program::Step4, Outcome::InChild);
    lemma_only_prologue(Program::Step4);
    lemma_only_prologue(p);
    lemma_only_prologue(q);
    lemma_only_prologue(r);
    let write = MemAction::Write { offset: 0, value: 1 };
    assert(crate::mem::script_of(Program::Step4) + crate::mem::script_of(p)
        + crate::mem::script_of(q) =~= seq![
        MemAction::MapMemory { len: 0x4000_0000 },
        write,
        MemAction::SayEntry(EntryLine::BeforeFork),
        MemAction::Fork,
        MemAction::SayEntry(EntryLine::ParentBeforeWait),
        MemAction::Wait { child },
        MemAction::SayEntry(EntryLine::ParentAfterWait),
        MemAction::Exit(0),
    ]);
    assert(crate::mem::script_of(r) =~= seq![
        MemAction::SayEntry(EntryLine::ChildBeforeWrite),
        write,
        MemAction::SayEntry(EntryLine::ChildAfterWrite),
        MemAction::Exit(0),
    ]);
}

/// A process that could not fork, or whose child did not exit by itself, says just that, to the
/// standard error, and exits.
pub proof fn failures_are_said_before_the_exit(child: i32, end: ChildEnd, third: bool)
    requires
        !(end is Exited),
    ensures
        ({
            let p = if third {
                Program::Step3
            } else {
                Program::Step4
            };
            let none = crate::mem::after_fork(p, Outcome::NotForked);
            let parent = crate::mem::after_fork(p, Outcome::Forked { child });
            let lost = crate::mem::after_wait(parent, end);
            &&& crate::mem::script_of(none) == seq![MemAction::SayForkFailed, MemAction::Exit(1)]
            &&& crate::mem::script_of(lost) == seq![
                MemAction::SayError(MemMessage::ChildLost),
                MemAction::Exit(128),
            ]
        }),
{
    lemma_only_prologue(Program::ForkFailed);
    lemma_only_prologue(Program::ChildLost);
    assert(crate::mem::script_of(Program::ForkFailed) =~= seq![
        MemAction::SayForkFailed,
        MemAction::Exit(1),
    ]);
    assert(crate::mem::script_of(Program::ChildLost) =~= seq![
        MemAction::SayError(MemMessage::ChildLost),
        MemAction::Exit(128),
    ]);
}

proof fn lemma_part_place(p: Program, c: int, o: int)
    requires
        0 <= c <= crate::mem::pages_of(p) + 1,
        0 <= o < crate::mem::part_of(p, c).len(),
    ensures
        crate::mem::before_part(p, c).len() + o < crate::mem::script_of(p).len(),
        crate::mem::script_of(p)[crate::mem::before_part(p, c).len() + o] == crate::mem::part_of(
            p,
            c,
        )[o],
{
    let here = crate::mem::before_part(p, c + 1);
    let k = crate::mem::before_part(p, c).len() + o;
    crate::mem::lemma_before_part_grows(p, c + 1, crate::mem::pages_of(p) as int + 2);
    assert(here[k] == crate::mem::part_of(p, c)[o]);
    assert(crate::mem::script_of(p).take(here.len() as int)[k] == here[k]);
}

proof fn lemma_numbered_length(c: int)
    requires
        1 <= c <= 5,
    ensures
        crate::mem::before_part(Program::Step5Numbered, c).len() == 4 + 2 * (c - 1),
    decreases c,
{
    if c == 1 {
        assert(crate::mem::before_part(Program::Step5Numbered, 0).len() == 0);
    } else {
        lemma_numbered_length(c - 1);
    }
}

/// The step with numbered memory maps four pages, says where, has the first touch of each of their
/// bytes told, starts the thread that fills them, and then reads the first byte of each page twice,
/// one page after the other.
pub proof fn numbered_pages_are_read_twice_in_order(k: int)
    requires
        0 <= k < 12,
    ensures
        crate::mem::script_of(Program::Step5Numbered).len() == 12,
        crate::mem::script_of(Program::Step5Numbered)[k] == (if k == 0 {
            MemAction::MapMemory { len: 16_384 }
        } else if k == 1 {
            MemAction::SayAddress(AddressLine::Start)
        } else if k == 2 {
            MemAction::Register { len: 16_384 }
        } else if k == 3 {
            MemAction::StartFilling(Filling::Number)
        } else {
            MemAction::SayByte {
                offset: (4096 * ((k - 4) / 2)) as usize,
                line: if k % 2 == 0 {
                    ByteLine::First
                } else {
                    ByteLine::Second
                },
            }
        }),
{
    let p = Program::Step5Numbered;
    lemma_numbered_length(5);
    assert(crate::mem::before_part(p, 6) =~= crate::mem::before_part(p, 5)
        + crate::mem::epilogue_of(p));
    if k < 4 {
        assert(crate::mem::before_part(p, 0).len() == 0);
        lemma_part_place(p, 0, k);
    } else {
        let c = 1 + (k - 4) / 2;
        lemma_numbered_length(c);
        lemma_part_place(p, c, (k - 4) % 2);
    }
}

proof fn lemma_snapshot_length(c: int)
    requires
        1 <= c <= 21,
    ensures
        crate::mem::before_part(Program::Step5Snapshot, c).len() == 5 + (c - 1) + (if c > 5 {
            2int
        } else {
            0
        }),
    decreases c,
{
    if c == 1 {
        assert(crate::mem::before_part(Program::Step5Snapshot, 0).len() == 0);
    } else {
        lemma_snapshot_length(c - 1);
    }
}

/// The step with the snapshot maps two hundred pages, shows the usage, says where the memory is, has
/// the first touch of each byte told, starts the thread that fills the pages, and then reads the
/// first byte of every tenth page, under the number of the page. Before it reads the fifth of them
/// it overwrites that byte and reads it and the one behind it. At last it shows the usage again.
pub proof fn every_tenth_page_is_read_in_order(k: int)
    requires
        0 <= k < 28,
    ensures
        crate::mem::script_of(Program::Step5Snapshot).len() == 28,
        ({
            let a = crate::mem::script_of(Program::Step5Snapshot)[k];
            let i = if k < 9 {
                k - 5
            } else {
                k - 7
            };
            if k == 0 {
                a == (MemAction::MapMemory { len: 819_200 })
            } else if k == 1 || k == 27 {
                a == MemAction::ShowUsage(Some(Label::MainThread))
            } else if k == 2 {
                a == MemAction::SayAddress(AddressLine::Start)
            } else if k == 3 {
                a == (MemAction::Register { len: 819_200 })
            } else if k == 4 {
                a == MemAction::StartFilling(Filling::Snapshot)
            } else if k == 9 {
                a == (MemAction::Write { offset: 163_840, value: 255 })
            } else if k == 10 {
                a == (MemAction::SayBytes { first: 163_840, second: 163_841 })
            } else {
                a == (MemAction::SayByte {
                    offset: (10 * i * 4096) as usize,
                    line: ByteLine::Page((10 * i + 1) as usize),
                })
            }
        }),
{
    let p = Program::Step5Snapshot;
    lemma_snapshot_length(21);
    assert(crate::mem::before_part(p, 22) =~= crate::mem::before_part(p, 21)
        + crate::mem::epilogue_of(p));
    if k < 5 {
        assert(crate::mem::before_part(p, 0).len() == 0);
        lemma_part_place(p, 0, k);
    } else if k < 9 {
        lemma_snapshot_length(k - 4);
        lemma_part_place(p, k - 4, 0);
    } else if k < 12 {
        lemma_snapshot_length(5);
        lemma_part_place(p, 5, k - 9);
    } else if k < 27 {
        lemma_snapshot_length(k - 6);
        lemma_part_place(p, k - 6, 0);
    } else {
        lemma_part_place(p, 21, 0);
    }
}

// ---------------------------------------------------------------------------------------------
// Choosing and running
// ---------------------------------------------------------------------------------------------

/// The name of a program that a user can start.
pub open spec fn step_name(p: Program) -> Seq<char> {
    match p {
        Program::Step2 => "step2"@,
        Program::Step3 => "step3"@,
        Program::Step4 => "step4"@,
        Program::Step5Numbered => "step5-1"@,
        _ => "step5-2"@,
    }
}

/// An argument names a program exactly if it is its name, letter for letter, and only programs that
/// a user can start have names. Without an argument, or with another, the second step is chosen.
pub proof fn programs_go_by_their_names(s: &str, p: Program)
    ensures
        crate::mem::program_named(Some(s)) == Some(p) <==> crate::mem_laws::is_start(p) && s@
            == step_name(p),
        crate::mem::program_named(None) is None,
        crate::mem::program_chosen(Some(s)) == p <==> crate::mem::program_named(Some(s)) == Some(p)
            || (crate::mem::program_named(Some(s)) is None && p is Step2),
        crate::mem::program_chosen(None) is Step2,
{
    reveal_strlit("step2");
    reveal_strlit("step3");
    reveal_strlit("step4");
    reveal_strlit("step5-1");
    reveal_strlit("step5-2");
    assert("step2"@[4] == '2');
    assert("step3"@[4] == '3');
    assert("step4"@[4] == '4');
    assert("step5-1"@[6] == '1');
    assert("step5-2"@[6] == '2');
}

/// A run after `n` actions that are neither a `fork` nor a wait.
pub open spec fn run_after(p: Program, n: nat) -> RunView
    decreases n,
{
    if n == 0 {
        RunView::start(p)
    } else {
        run_after(p, (n - 1) as nat).next(Outcome::Done)
    }
}

/// A run does what its program says, one action after the other, up to a `fork`, a wait or the end.
pub proof fn run_follows_its_program(p: Program, n: nat)
    requires
        n <= crate::mem::script_of(p).len(),
        forall|i: int|
            0 <= i < n ==> !(#[trigger] crate::mem::script_of(p)[i] is Fork)
                && !(crate::mem::script_of(p)[i] is Wait),
    ensures
        run_after(p, n).program == p,
        run_after(p, n).action() == (if n < crate::mem::script_of(p).len() {
            Some(crate::mem::script_of(p)[n as int])
        } else {
            None
        }),
    decreases n,
{
    lemma_run_done(p, n);
}

proof fn lemma_run_done(p: Program, n: nat)
    requires
        n <= crate::mem::script_of(p).len(),
        forall|i: int|
            0 <= i < n ==> !(#[trigger] crate::mem::script_of(p)[i] is Fork)
                && !(crate::mem::script_of(p)[i] is Wait),
    ensures
        run_after(p, n) == (RunView { program: p, done: n as int }),
    decreases n,
{
    if n > 0 {
        lemma_run_done(p, (n - 1) as nat);
        assert(!(crate::mem::script_of(p)[n - 1] is Fork));
    }
}

/// After a `fork` or a wait a run goes on with the first action of the program for its outcome: the
/// parent waits for the very child that was made, the child goes its own way, and the end of the
/// child decides what the parent says.
pub proof fn outcomes_choose_the_program(
    r: RunView,
    child: i32,
    end: ChildEnd,
    third: bool,
)
    requires
        third ==> r.program is Step3 || r.program is Step3Parent,
        !third ==> r.program is Step4 || r.program is Step4Parent,
    ensures
        r.action() == Some(MemAction::Fork) ==> {
            &&& r.next(Outcome::Forked { child }) == RunView::start(
                if third {
                    Program::Step3Parent { child }
                } else {
                    Program::Step4Parent { child }
                },
            )
            &&& r.next(Outcome::InChild) == RunView::start(
                if third {
                    Program::Step3Child
                } else {
                    Program::Step4Child
                },
            )
            &&& r.next(Outcome::NotForked) == RunView::start(Program::ForkFailed)
        },
        r.action() == Some(MemAction::Wait { child }) ==> r.next(Outcome::Ended(end))
            == RunView::start(
            match end {
                ChildEnd::Exited { pid, status } => if third {
                    Program::Step3Exited { pid, status }
                } else {
                    Program::Step4Exited
                },
                _ => Program::ChildLost,
            },
        ),
{
    if r.program is Step3 && r.action() == Some(MemAction::Wait { child }) {
        lemma_shown_place(r.program, r.done);
        lemma_plain_shown(
            r.program,
            crate::mem::prologue_of(r.program),
            crate::mem::epilogue_of(r.program),
            262_146,
        );
    } else if !(r.program is Step3) {
        lemma_only_prologue(r.program);
    }
}

} // verus!

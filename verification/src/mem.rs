//! Experiments with virtual memory, as programs of single actions.
//!
//! A [`Program`] is a list of actions: some at the start, some for each page that it walks over,
//! some at the end. [`Run`] goes through a program one action after the other; a `fork` and a wait
//! decide which program goes on.

use crate::pagemap::PAGE_SIZE;
use crate::run::ChildEnd;
use crate::text::same_text;
use vstd::prelude::*;

verus! {

/// One gibibyte.
pub const GIBIBYTE: usize = 0x4000_0000;

/// How many pages a gibibyte holds.
pub const GIBIBYTE_PAGES: usize = 0x4_0000;

/// How many pages the child of a `fork` writes to.
pub const CHILD_PAGES: usize = 10_000;

/// The size of the memory whose pages are filled with their numbers: four pages.
pub const NUMBERED_LEN: usize = 0x4000;

/// The size of the memory whose pages come from a snapshot: two hundred pages.
pub const SNAPSHOT_LEN: usize = 819_200;

/// How many bytes lie between the pages that are read of a snapshot: ten pages.
pub const SNAPSHOT_STRIDE: usize = 40_960;

// ---------------------------------------------------------------------------------------------
// Actions
// ---------------------------------------------------------------------------------------------

/// Who reports, and when.
#[derive(Clone, Copy, Debug, PartialEq, Eq, Structural)]
pub enum Label {
    ParentBeforeWait,
    ParentAfterWait,
    ChildBeforeWrite,
    ChildAfterWrite,
    MainThread,
}

/// What there is to say.
#[derive(Clone, Copy, Debug, PartialEq, Eq, Structural)]
pub enum MemMessage {
    MapStarts,
    MapDone,
    /// So many pages were written to.
    PagesWritten(usize),
    /// The physical memory is given back.
    GivingBack,
    ChildExited { pid: i32, status: i32 },
    ChildLost,
}

/// How an address is shown.
#[derive(Clone, Copy, Debug, PartialEq, Eq, Structural)]
pub enum AddressLine {
    Mapped,
    Start,
}

/// How a byte is shown.
#[derive(Clone, Copy, Debug, PartialEq, Eq, Structural)]
pub enum ByteLine {
    /// The byte of a page that was given back.
    GivenBack,
    /// The first read of a page.
    First,
    /// The second read of a page.
    Second,
    /// The read of the page with a number.
    Page(usize),
}

/// When an entry of the pagemap is shown.
#[derive(Clone, Copy, Debug, PartialEq, Eq, Structural)]
pub enum EntryLine {
    BeforeFork,
    ParentBeforeWait,
    ParentAfterWait,
    ChildBeforeWrite,
    ChildAfterWrite,
}

/// What a thread of its own puts into a page that is touched for the first time.
#[derive(Clone, Copy, Debug, PartialEq, Eq, Structural)]
pub enum Filling {
    /// The number of the page, in every byte.
    Number,
    /// The same page of a snapshot.
    Snapshot,
}

/// A single action. Offsets count from the start of the memory that was mapped.
#[derive(Clone, Copy, Debug, PartialEq, Eq, Structural)]
pub enum MemAction {
    /// Read the mappings of this process.
    LoadMappings,
    /// Write the total size of the mappings that were read.
    SayTotal,
    /// Write the mappings that were read.
    SayMappings,
    /// Write how much memory is reserved and how much is there.
    ShowUsage(Option<Label>),
    /// Write how much of the memory is shared and how much is private.
    ShowRollup(Label),
    /// Write a line.
    Say(MemMessage),
    /// Write a line to the standard error.
    SayError(MemMessage),
    /// Write to the standard error why `fork` failed.
    SayForkFailed,
    /// Map so many bytes of private memory.
    MapMemory { len: usize },
    /// Write where the mapped memory starts.
    SayAddress(AddressLine),
    /// Write one byte.
    Write { offset: usize, value: u8 },
    /// Give the physical memory of so many bytes back.
    Discard { len: usize },
    /// Read one byte and write what it is.
    SayByte { offset: usize, line: ByteLine },
    /// Read two bytes and write what they are.
    SayBytes { first: usize, second: usize },
    /// Write the entry of the pagemap for the first page.
    SayEntry(EntryLine),
    /// Ask to be told of the first touch of each page of so many bytes.
    Register { len: usize },
    /// Start the thread that fills pages at their first touch.
    StartFilling(Filling),
    /// Make a copy of this process.
    Fork,
    /// Wait for the end of the copy.
    Wait { child: i32 },
    /// Exit with a code.
    Exit(i32),
}

// ---------------------------------------------------------------------------------------------
// Programs
// ---------------------------------------------------------------------------------------------

/// A list of actions.
#[derive(Clone, Copy, Debug, PartialEq, Eq, Structural)]
pub enum Program {
    /// Map a gibibyte, write to it page by page, and give a part of it back on the way.
    Step2,
    /// Fill a gibibyte and fork.
    Step3,
    Step3Parent { child: i32 },
    Step3Exited { pid: i32, status: i32 },
    Step3Child,
    /// Look at the physical page behind one page, before and after a fork.
    Step4,
    Step4Parent { child: i32 },
    Step4Exited,
    Step4Child,
    /// Read four pages that are filled with their numbers when they are touched.
    Step5Numbered,
    /// Read some of two hundred pages that come from a snapshot when they are touched.
    Step5Snapshot,
    /// The child did not exit by itself.
    ChildLost,
    /// There is no child.
    ForkFailed,
}

/// The actions before the pages.
pub open spec fn prologue_of(p: Program) -> Seq<MemAction> {
    match p {
        Program::Step2 => seq![
            MemAction::LoadMappings,
            MemAction::SayTotal,
            MemAction::ShowUsage(None),
            MemAction::SayMappings,
            MemAction::Say(MemMessage::MapStarts),
            MemAction::MapMemory { len: GIBIBYTE },
            MemAction::SayAddress(AddressLine::Mapped),
            MemAction::ShowUsage(None),
        ],
        Program::Step3 => seq![MemAction::MapMemory { len: GIBIBYTE }],
        Program::Step3Parent { child } => seq![
            MemAction::ShowUsage(Some(Label::ParentBeforeWait)),
            MemAction::ShowRollup(Label::ParentBeforeWait),
            MemAction::Wait { child },
        ],
        Program::Step3Exited { pid, status } => seq![
            MemAction::Say(MemMessage::ChildExited { pid, status }),
            MemAction::ShowUsage(Some(Label::ParentAfterWait)),
            MemAction::ShowRollup(Label::ParentAfterWait),
            MemAction::Exit(status),
        ],
        Program::Step3Child => seq![
            MemAction::ShowUsage(Some(Label::ChildBeforeWrite)),
            MemAction::ShowRollup(Label::ChildBeforeWrite),
        ],
        Program::Step4 => seq![
            MemAction::MapMemory { len: GIBIBYTE },
            MemAction::Write { offset: 0, value: 1 },
            MemAction::SayEntry(EntryLine::BeforeFork),
            MemAction::Fork,
        ],
        Program::Step4Parent { child } => seq![
            MemAction::SayEntry(EntryLine::ParentBeforeWait),
            MemAction::Wait { child },
        ],
        Program::Step4Exited => seq![
            MemAction::SayEntry(EntryLine::ParentAfterWait),
            MemAction::Exit(0),
        ],
        Program::Step4Child => seq![
            MemAction::SayEntry(EntryLine::ChildBeforeWrite),
            MemAction::Write { offset: 0, value: 1 },
            MemAction::SayEntry(EntryLine::ChildAfterWrite),
            MemAction::Exit(0),
        ],
        Program::Step5Numbered => seq![
            MemAction::MapMemory { len: NUMBERED_LEN },
            MemAction::SayAddress(AddressLine::Start),
            MemAction::Register { len: NUMBERED_LEN },
            MemAction::StartFilling(Filling::Number),
        ],
        Program::Step5Snapshot => seq![
            MemAction::MapMemory { len: SNAPSHOT_LEN },
            MemAction::ShowUsage(Some(Label::MainThread)),
            MemAction::SayAddress(AddressLine::Start),
            MemAction::Register { len: SNAPSHOT_LEN },
            MemAction::StartFilling(Filling::Snapshot),
        ],
        Program::ChildLost => seq![
            MemAction::SayError(MemMessage::ChildLost),
            MemAction::Exit(128),
        ],
        Program::ForkFailed => seq![MemAction::SayForkFailed, MemAction::Exit(1)],
    }
}

/// How many pages a program walks over.
pub open spec fn pages_of(p: Program) -> nat {
    match p {
        Program::Step2 => GIBIBYTE_PAGES as nat,
        Program::Step3 => GIBIBYTE_PAGES as nat,
        Program::Step3Child => CHILD_PAGES as nat,
        Program::Step5Numbered => 4,
        Program::Step5Snapshot => 20,
        _ => 0,
    }
}

/// Whether the memory in use is shown when so many pages have been written to.
pub open spec fn is_checkpoint(pages: int) -> bool {
    pages == 100 || pages == 1000 || pages == 10_000
}

/// The actions for the page at place `i`.
pub open spec fn page_of(p: Program, i: int) -> Seq<MemAction> {
    let offset = (i * PAGE_SIZE) as usize;
    match p {
        Program::Step2 => {
            let write = seq![MemAction::Write { offset, value: 1 }];
            let report = if is_checkpoint(i + 1) {
                seq![
                    MemAction::Say(MemMessage::PagesWritten((i + 1) as usize)),
                    MemAction::ShowUsage(None),
                ]
            } else {
                seq![]
            };
            let give_back = if i + 1 == 10_000 {
                seq![
                    MemAction::Say(MemMessage::GivingBack),
                    MemAction::Discard { len: (PAGE_SIZE * (i + 1)) as usize },
                    MemAction::ShowUsage(None),
                    MemAction::SayByte { offset, line: ByteLine::GivenBack },
                ]
            } else {
                seq![]
            };
            write + report + give_back
        },
        Program::Step3 => seq![MemAction::Write { offset, value: 1 }],
        Program::Step3Child => seq![MemAction::Write { offset, value: 1 }],
        Program::Step5Numbered => seq![
            MemAction::SayByte { offset, line: ByteLine::First },
            MemAction::SayByte { offset, line: ByteLine::Second },
        ],
        Program::Step5Snapshot => {
            let offset = (i * SNAPSHOT_STRIDE) as usize;
            let overwrite = if i == 4 {
                seq![
                    MemAction::Write { offset, value: 255 },
                    MemAction::SayBytes { first: offset, second: (i * SNAPSHOT_STRIDE + 1) as usize },
                ]
            } else {
                seq![]
            };
            overwrite + seq![
                MemAction::SayByte { offset, line: ByteLine::Page((10 * i + 1) as usize) },
            ]
        },
        _ => seq![],
    }
}

/// The actions after the pages.
pub open spec fn epilogue_of(p: Program) -> Seq<MemAction> {
    match p {
        Program::Step2 => seq![
            MemAction::Say(MemMessage::MapDone),
            MemAction::LoadMappings,
            MemAction::SayTotal,
            MemAction::ShowUsage(None),
            MemAction::SayMappings,
        ],
        Program::Step3 => seq![MemAction::Fork],
        Program::Step3Child => seq![
            MemAction::ShowUsage(Some(Label::ChildAfterWrite)),
            MemAction::ShowRollup(Label::ChildAfterWrite),
            MemAction::Exit(0),
        ],
        Program::Step5Snapshot => seq![MemAction::ShowUsage(Some(Label::MainThread))],
        _ => seq![],
    }
}

/// The part of a program at place `c`: the actions before the pages, then those of each page, then
/// those after the pages.
pub open spec fn part_of(p: Program, c: int) -> Seq<MemAction> {
    if c <= 0 {
        prologue_of(p)
    } else if c <= pages_of(p) {
        page_of(p, c - 1)
    } else {
        epilogue_of(p)
    }
}

/// The parts of a program before place `c`, one after the other.
pub open spec fn before_part(p: Program, c: int) -> Seq<MemAction>
    decreases c,
{
    if c <= 0 {
        Seq::empty()
    } else {
        before_part(p, c - 1) + part_of(p, c - 1)
    }
}

/// All actions of a program.
pub open spec fn script_of(p: Program) -> Seq<MemAction> {
    before_part(p, pages_of(p) as int + 2)
}

impl Program {
    /// How many pages the program walks over.
    pub fn pages(self) -> (n: usize)
        ensures
            n == pages_of(self),
    {
        match self {
            Program::Step2 => GIBIBYTE_PAGES,
            Program::Step3 => GIBIBYTE_PAGES,
            Program::Step3Child => CHILD_PAGES,
            Program::Step5Numbered => 4,
            Program::Step5Snapshot => 20,
            _ => 0,
        }
    }

    /// The actions before the pages.
    pub fn prologue(self) -> (v: Vec<MemAction>)
        ensures
            v@ == prologue_of(self),
    {
        match self {
            Program::Step2 => vec![
                MemAction::LoadMappings,
                MemAction::SayTotal,
                MemAction::ShowUsage(None),
                MemAction::SayMappings,
                MemAction::Say(MemMessage::MapStarts),
                MemAction::MapMemory { len: GIBIBYTE },
                MemAction::SayAddress(AddressLine::Mapped),
                MemAction::ShowUsage(None),
            ],
            Program::Step3 => vec![MemAction::MapMemory { len: GIBIBYTE }],
            Program::Step3Parent { child } => vec![
                MemAction::ShowUsage(Some(Label::ParentBeforeWait)),
                MemAction::ShowRollup(Label::ParentBeforeWait),
                MemAction::Wait { child },
            ],
            Program::Step3Exited { pid, status } => vec![
                MemAction::Say(MemMessage::ChildExited { pid, status }),
                MemAction::ShowUsage(Some(Label::ParentAfterWait)),
                MemAction::ShowRollup(Label::ParentAfterWait),
                MemAction::Exit(status),
            ],
            Program::Step3Child => vec![
                MemAction::ShowUsage(Some(Label::ChildBeforeWrite)),
                MemAction::ShowRollup(Label::ChildBeforeWrite),
            ],
            Program::Step4 => vec![
                MemAction::MapMemory { len: GIBIBYTE },
                MemAction::Write { offset: 0, value: 1 },
                MemAction::SayEntry(EntryLine::BeforeFork),
                MemAction::Fork,
            ],
            Program::Step4Parent { child } => vec![
                MemAction::SayEntry(EntryLine::ParentBeforeWait),
                MemAction::Wait { child },
            ],
            Program::Step4Exited => vec![
                MemAction::SayEntry(EntryLine::ParentAfterWait),
                MemAction::Exit(0),
            ],
            Program::Step4Child => vec![
                MemAction::SayEntry(EntryLine::ChildBeforeWrite),
                MemAction::Write { offset: 0, value: 1 },
                MemAction::SayEntry(EntryLine::ChildAfterWrite),
                MemAction::Exit(0),
            ],
            Program::Step5Numbered => vec![
                MemAction::MapMemory { len: NUMBERED_LEN },
                MemAction::SayAddress(AddressLine::Start),
                MemAction::Register { len: NUMBERED_LEN },
                MemAction::StartFilling(Filling::Number),
            ],
            Program::Step5Snapshot => vec![
                MemAction::MapMemory { len: SNAPSHOT_LEN },
                MemAction::ShowUsage(Some(Label::MainThread)),
                MemAction::SayAddress(AddressLine::Start),
                MemAction::Register { len: SNAPSHOT_LEN },
                MemAction::StartFilling(Filling::Snapshot),
            ],
            Program::ChildLost => vec![
                MemAction::SayError(MemMessage::ChildLost),
                MemAction::Exit(128),
            ],
            Program::ForkFailed => vec![MemAction::SayForkFailed, MemAction::Exit(1)],
        }
    }

    /// The actions for the page at place `i`.
    pub fn page(self, i: usize) -> (v: Vec<MemAction>)
        requires
            i < pages_of(self),
        ensures
            v@ == page_of(self, i as int),
    {
        let mut v: Vec<MemAction> = Vec::new();
        match self {
            Program::Step2 => {
                let offset: usize = i * PAGE_SIZE;
                v.push(MemAction::Write { offset, value: 1 });
                if i + 1 == 100 || i + 1 == 1000 || i + 1 == 10_000 {
                    v.push(MemAction::Say(MemMessage::PagesWritten(i + 1)));
                    v.push(MemAction::ShowUsage(None));
                }
                if i + 1 == 10_000 {
                    v.push(MemAction::Say(MemMessage::GivingBack));
                    v.push(MemAction::Discard { len: PAGE_SIZE * (i + 1) });
                    v.push(MemAction::ShowUsage(None));
                    v.push(MemAction::SayByte { offset, line: ByteLine::GivenBack });
                }
            },
            Program::Step3 => {
                v.push(MemAction::Write { offset: i * PAGE_SIZE, value: 1 });
            },
            Program::Step3Child => {
                v.push(MemAction::Write { offset: i * PAGE_SIZE, value: 1 });
            },
            Program::Step5Numbered => {
                let offset: usize = i * PAGE_SIZE;
                v.push(MemAction::SayByte { offset, line: ByteLine::First });
                v.push(MemAction::SayByte { offset, line: ByteLine::Second });
            },
            Program::Step5Snapshot => {
                let offset: usize = i * SNAPSHOT_STRIDE;
                if i == 4 {
                    v.push(MemAction::Write { offset, value: 255 });
                    v.push(MemAction::SayBytes { first: offset, second: offset + 1 });
                }
                v.push(MemAction::SayByte { offset, line: ByteLine::Page(10 * i + 1) });
            },
            _ => {},
        }
        assert(v@ =~= page_of(self, i as int));
        v
    }

    /// The actions after the pages.
    pub fn epilogue(self) -> (v: Vec<MemAction>)
        ensures
            v@ == epilogue_of(self),
    {
        match self {
            Program::Step2 => vec![
                MemAction::Say(MemMessage::MapDone),
                MemAction::LoadMappings,
                MemAction::SayTotal,
                MemAction::ShowUsage(None),
                MemAction::SayMappings,
            ],
            Program::Step3 => vec![MemAction::Fork],
            Program::Step3Child => vec![
                MemAction::ShowUsage(Some(Label::ChildAfterWrite)),
                MemAction::ShowRollup(Label::ChildAfterWrite),
                MemAction::Exit(0),
            ],
            Program::Step5Snapshot => vec![MemAction::ShowUsage(Some(Label::MainThread))],
            _ => Vec::new(),
        }
    }

    fn part(self, c: usize) -> (v: Vec<MemAction>)
        ensures
            v@ == part_of(self, c as int),
    {
        if c == 0 {
            self.prologue()
        } else if c <= self.pages() {
            self.page(c - 1)
        } else {
            self.epilogue()
        }
    }
}

// ---------------------------------------------------------------------------------------------
// Choosing a program
// ---------------------------------------------------------------------------------------------

/// The program that an argument names.
pub open spec fn program_named(arg: Option<&str>) -> Option<Program> {
    match arg {
        None => None,
        Some(s) => if s@ == "step2"@ {
            Some(Program::Step2)
        } else if s@ == "step3"@ {
            Some(Program::Step3)
        } else if s@ == "step4"@ {
            Some(Program::Step4)
        } else if s@ == "step5-1"@ {
            Some(Program::Step5Numbered)
        } else if s@ == "step5-2"@ {
            Some(Program::Step5Snapshot)
        } else {
            None
        },
    }
}

/// Finds the program that an argument names.
pub fn named_program(arg: Option<&str>) -> (p: Option<Program>)
    ensures
        p == program_named(arg),
{
    match arg {
        None => None,
        Some(s) => if same_text(s, "step2") {
            Some(Program::Step2)
        } else if same_text(s, "step3") {
            Some(Program::Step3)
        } else if same_text(s, "step4") {
            Some(Program::Step4)
        } else if same_text(s, "step5-1") {
            Some(Program::Step5Numbered)
        } else if same_text(s, "step5-2") {
            Some(Program::Step5Snapshot)
        } else {
            None
        },
    }
}

/// The program that an argument chooses: the one that it names, or the second step.
pub open spec fn program_chosen(arg: Option<&str>) -> Program {
    match program_named(arg) {
        Some(p) => p,
        None => Program::Step2,
    }
}

/// Finds the program that an argument chooses.
pub fn chosen_program(arg: Option<&str>) -> (p: Program)
    ensures
        p == program_chosen(arg),
{
    match named_program(arg) {
        Some(p) => p,
        None => Program::Step2,
    }
}

// ---------------------------------------------------------------------------------------------
// Running a program
// ---------------------------------------------------------------------------------------------

/// What an action has come to.
#[derive(Clone, Copy, Debug, PartialEq, Eq, Structural)]
pub enum Outcome {
    /// Anything but a `fork` and a wait is done.
    Done,
    /// This is the parent, and this its child.
    Forked { child: i32 },
    /// This is the child.
    InChild,
    /// There is no child.
    NotForked,
    /// The child has ended.
    Ended(ChildEnd),
}

/// The program that goes on after a `fork`.
pub open spec fn after_fork(p: Program, outcome: Outcome) -> Program {
    match (p, outcome) {
        (Program::Step3, Outcome::Forked { child }) => Program::Step3Parent { child },
        (Program::Step3, Outcome::InChild) => Program::Step3Child,
        (_, Outcome::Forked { child }) => Program::Step4Parent { child },
        (_, Outcome::InChild) => Program::Step4Child,
        _ => Program::ForkFailed,
    }
}

/// The program that goes on after a wait.
pub open spec fn after_wait(p: Program, end: ChildEnd) -> Program {
    match (p, end) {
        (Program::Step3Parent { .. }, ChildEnd::Exited { pid, status }) => Program::Step3Exited {
            pid,
            status,
        },
        (_, ChildEnd::Exited { .. }) => Program::Step4Exited,
        _ => Program::ChildLost,
    }
}

/// A program on its way.
pub struct RunView {
    pub program: Program,
    /// How many of its actions are done.
    pub done: int,
}

impl RunView {
    /// A program at its start.
    pub open spec fn start(program: Program) -> RunView {
        RunView { program, done: 0 }
    }

    /// The next action; none at the end of the program.
    pub open spec fn action(self) -> Option<MemAction> {
        let script = script_of(self.program);
        if 0 <= self.done < script.len() {
            Some(script[self.done])
        } else {
            None
        }
    }

    /// Whether an outcome is one that the next action can have.
    pub open spec fn expects(self, outcome: Outcome) -> bool {
        match self.action() {
            Some(MemAction::Fork) => outcome is Forked || outcome is InChild || outcome is NotForked,
            Some(MemAction::Wait { .. }) => outcome is Ended,
            Some(_) => outcome is Done,
            None => false,
        }
    }

    /// The program after an outcome of the next action.
    pub open spec fn next(self, outcome: Outcome) -> RunView {
        match (self.action(), outcome) {
            (Some(MemAction::Fork), _) => RunView::start(after_fork(self.program, outcome)),
            (Some(MemAction::Wait { .. }), Outcome::Ended(end)) => RunView::start(
                after_wait(self.program, end),
            ),
            _ => RunView { done: self.done + 1, ..self },
        }
    }
}

/// The parts before a later part begin with the parts before an earlier one.
pub proof fn lemma_before_part_grows(p: Program, c: int, d: int)
    requires
        0 <= c <= d,
    ensures
        before_part(p, c).is_prefix_of(before_part(p, d)),
    decreases d,
{
    if c < d {
        lemma_before_part_grows(p, c, d - 1);
        assert(before_part(p, c) =~= before_part(p, d).take(before_part(p, c).len() as int));
    } else {
        assert(before_part(p, c) =~= before_part(p, d).take(before_part(p, c).len() as int));
    }
}

/// A program on its way: it tells what to do next and takes what came of it.
pub struct Run {
    program: Program,
    part: usize,
    actions: Vec<MemAction>,
    at: usize,
}

impl View for Run {
    type V = RunView;

    closed spec fn view(&self) -> RunView {
        RunView {
            program: self.program,
            done: before_part(self.program, self.part as int).len() + self.at,
        }
    }
}

impl Run {
    #[verifier::type_invariant]
    spec fn wf(self) -> bool {
        &&& self.part <= pages_of(self.program) + 1
        &&& self.actions@ == part_of(self.program, self.part as int)
        &&& self.at <= self.actions@.len()
        &&& self.at < self.actions@.len() || self.part == pages_of(self.program) + 1
    }

    /// A program at its start.
    pub fn start(program: Program) -> (r: Run)
        ensures
            r@ == RunView::start(program),
    {
        Run::settled(program, 0, program.part(0), 0)
    }

    /// The first place from `at` in `part` on that holds an action.
    fn settled(program: Program, part: usize, actions: Vec<MemAction>, at: usize) -> (r: Run)
        requires
            part <= pages_of(program) + 1,
            actions@ == part_of(program, part as int),
            at <= actions@.len(),
        ensures
            r@ == (RunView {
                program,
                done: before_part(program, part as int).len() + at,
            }),
    {
        let pages: usize = program.pages();
        let mut part = part;
        let mut actions = actions;
        let mut at = at;
        let ghost done = before_part(program, part as int).len() + at;
        while at == actions.len() && part <= pages
            invariant
                pages == pages_of(program),
                pages <= 0x4_0000,
                part <= pages + 1,
                actions@ == part_of(program, part as int),
                at <= actions@.len(),
                done == before_part(program, part as int).len() + at,
            decreases pages + 1 - part,
        {
            part = part + 1;
            actions = program.part(part);
            at = 0;
        }
        Run { program, part, actions, at }
    }

    /// The next action; none at the end of the program.
    pub fn action(&self) -> (a: Option<MemAction>)
        ensures
            a == self@.action(),
    {
        proof {
            use_type_invariant(self);
            lemma_before_part_grows(
                self.program,
                self.part + 1,
                pages_of(self.program) as int + 2,
            );
            let earlier = before_part(self.program, self.part as int);
            let here = before_part(self.program, self.part + 1);
            if self.at < self.actions@.len() {
                assert(here[earlier.len() + self.at] == self.actions@[self.at as int]);
                assert(script_of(self.program).take(here.len() as int)[earlier.len() + self.at]
                    == here[earlier.len() + self.at]);
            }
        }
        if self.at < self.actions.len() {
            Some(self.actions[self.at])
        } else {
            None
        }
    }

    /// Takes what the next action has come to.
    pub fn answer(self, outcome: Outcome) -> (r: Run)
        requires
            self@.expects(outcome),
        ensures
            r@ == self@.next(outcome),
    {
        let action = self.action();
        proof {
            use_type_invariant(&self);
        }
        match action {
            Some(MemAction::Fork) => Run::start(
                match self.program {
                    Program::Step3 => match outcome {
                        Outcome::Forked { child } => Program::Step3Parent { child },
                        Outcome::InChild => Program::Step3Child,
                        _ => Program::ForkFailed,
                    },
                    _ => match outcome {
                        Outcome::Forked { child } => Program::Step4Parent { child },
                        Outcome::InChild => Program::Step4Child,
                        _ => Program::ForkFailed,
                    },
                },
            ),
            Some(MemAction::Wait { .. }) => Run::start(
                match outcome {
                    Outcome::Ended(ChildEnd::Exited { pid, status }) => match self.program {
                        Program::Step3Parent { .. } => Program::Step3Exited { pid, status },
                        _ => Program::Step4Exited,
                    },
                    _ => Program::ChildLost,
                },
            ),
            _ => {
                let Run { program, part, actions, at } = self;
                Run::settled(program, part, actions, at + 1)
            },
        }
    }
}

} // verus!

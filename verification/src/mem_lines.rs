//! The lines that the experiments with virtual memory write.

use crate::mem::{named_program, AddressLine, ByteLine, EntryLine, Label, MemMessage};
use crate::pagemap::PagemapEntry;
use crate::text::{append_number, append_signed};
use vstd::prelude::*;

verus! {

/// How `format!("{:?}")` shows a text.
pub uninterp spec fn debug_quoted(s: Seq<char>) -> Seq<char>;

/// `<str as std::fmt::Debug>::fmt`, through `format!`: a text in quotes, with escapes. Taken on
/// trust: the result depends on the text alone. Which characters are escaped is left to the name,
/// since it follows the Unicode tables.
#[verifier::external_body]
fn quote(s: &str) -> (q: String)
    ensures
        q@ == debug_quoted(s@),
{
    format!("{:?}", s)
}

/// How an argument is shown: `None`, or what the argument is shown as, inside `Some(..)`.
pub open spec fn shown_arg(quoted: Option<Seq<char>>) -> Seq<char> {
    match quoted {
        None => "None"@,
        Some(q) => "Some("@ + q + ")"@,
    }
}

/// The line that says that an argument names no step.
pub open spec fn fallback_line_of(quoted: Option<Seq<char>>) -> Seq<char> {
    "[Fallback] 引数で明示された step が無効("@ + shown_arg(quoted)
        + ")なため、step2 を実行します。"@
}

/// Writes the line that says that an argument, shown as `quoted`, names no step.
pub fn fallback_line(quoted: Option<&str>) -> (line: String)
    ensures
        line@ == fallback_line_of(
            match quoted {
                None => None,
                Some(q) => Some(q@),
            },
        ),
{
    let mut line = "[Fallback] 引数で明示された step が無効(".to_owned();
    match quoted {
        None => {
            line.append("None");
        },
        Some(q) => {
            line.append("Some(");
            line.append(q);
            line.append(")");
        },
    }
    line.append(")なため、step2 を実行します。");
    proof {
        let head = "[Fallback] 引数で明示された step が無効("@;
        if let Some(q) = quoted {
            assert(head + "Some("@ + q@ + ")"@ =~= head + ("Some("@ + q@ + ")"@));
        }
    }
    line
}

/// Writes the line that says that an argument names no step, where it names none.
pub fn fallback_notice(arg: Option<&str>) -> (notice: Option<String>)
    ensures
        notice is Some <==> crate::mem::program_named(arg) is None,
        notice matches Some(line) ==> line@ == fallback_line_of(
            match arg {
                None => None,
                Some(s) => Some(debug_quoted(s@)),
            },
        ),
{
    if named_program(arg).is_some() {
        return None;
    }
    match arg {
        None => Some(fallback_line(None)),
        Some(s) => {
            let q = quote(s);
            Some(fallback_line(Some(q.as_str())))
        },
    }
}

impl Label {
    /// What is written before the lines of a report.
    pub open spec fn prefix_of(self) -> Seq<char> {
        match self {
            Label::ParentBeforeWait => "[parent][waitpid前]"@,
            Label::ParentAfterWait => "[parent][waitpid後]"@,
            Label::ChildBeforeWrite => "[child][書き込み前]"@,
            Label::ChildAfterWrite => "[child][書き込み後]"@,
            Label::MainThread => "[main thread] "@,
        }
    }

    /// What is written before the lines of a report.
    pub fn prefix(self) -> (s: &'static str)
        ensures
            s@ == self.prefix_of(),
    {
        match self {
            Label::ParentBeforeWait => "[parent][waitpid前]",
            Label::ParentAfterWait => "[parent][waitpid後]",
            Label::ChildBeforeWrite => "[child][書き込み前]",
            Label::ChildAfterWrite => "[child][書き込み後]",
            Label::MainThread => "[main thread] ",
        }
    }
}

impl MemMessage {
    /// The line for a message.
    pub open spec fn line_of(self) -> Seq<char> {
        match self {
            MemMessage::MapStarts => "----- mmap 開始 -----"@,
            MemMessage::MapDone => "----- mmap 完了 -----"@,
            MemMessage::PagesWritten(n) => "----- "@ + crate::text::digits_of(n as nat, 10)
                + " ページ書き込み完了 -----"@,
            MemMessage::GivingBack => "---- 物理メモリを返却する ----"@,
            MemMessage::ChildExited { pid, status } => "[parent][waitpid後] pid="@
                + crate::text::signed_digits_of(pid as int) + " exited with "@
                + crate::text::signed_digits_of(status as int),
            MemMessage::ChildLost =>
                "[parent][waitpid後] 子プロセスが exit 以外の理由で落ちました。"@,
        }
    }

    /// Writes the line for a message.
    pub fn line(self) -> (line: String)
        ensures
            line@ == self.line_of(),
    {
        match self {
            MemMessage::MapStarts => "----- mmap 開始 -----".to_owned(),
            MemMessage::MapDone => "----- mmap 完了 -----".to_owned(),
            MemMessage::PagesWritten(n) => {
                let mut line = "----- ".to_owned();
                append_number(&mut line, n as u64, 10);
                line.append(" ページ書き込み完了 -----");
                line
            },
            MemMessage::GivingBack => "---- 物理メモリを返却する ----".to_owned(),
            MemMessage::ChildExited { pid, status } => {
                let mut line = "[parent][waitpid後] pid=".to_owned();
                append_signed(&mut line, pid);
                line.append(" exited with ");
                append_signed(&mut line, status);
                line
            },
            MemMessage::ChildLost =>
                "[parent][waitpid後] 子プロセスが exit 以外の理由で落ちました。".to_owned(),
        }
    }
}

/// An address in hexadecimal.
pub open spec fn address_text(addr: nat) -> Seq<char> {
    "0x"@ + crate::text::digits_of(addr, 16)
}

/// Appends an address in hexadecimal.
pub fn append_address(out: &mut String, addr: usize)
    ensures
        final(out)@ == old(out)@ + address_text(addr as nat),
{
    out.append("0x");
    append_number(out, addr as u64, 16);
    assert(out@ =~= old(out)@ + address_text(addr as nat));
}

impl AddressLine {
    /// The line for an address.
    pub open spec fn line_of(self, addr: nat) -> Seq<char> {
        match self {
            AddressLine::Mapped => "mmap_anonymous の返した値: "@ + address_text(addr),
            AddressLine::Start => "[main thread] start_addr="@ + address_text(addr),
        }
    }

    /// Writes the line for an address.
    pub fn line(self, addr: usize) -> (line: String)
        ensures
            line@ == self.line_of(addr as nat),
    {
        let mut line = match self {
            AddressLine::Mapped => "mmap_anonymous の返した値: ".to_owned(),
            AddressLine::Start => "[main thread] start_addr=".to_owned(),
        };
        append_address(&mut line, addr);
        line
    }
}

impl ByteLine {
    /// The line for a byte.
    pub open spec fn line_of(self, byte: u8) -> Seq<char> {
        let value = crate::text::digits_of(byte as nat, 10);
        match self {
            ByteLine::GivenBack => "返却した 10000 ページ目を読み込んだ結果: "@ + value,
            ByteLine::First => "[main thread] result="@ + value,
            ByteLine::Second => "[main thread] 2回目 result="@ + value,
            ByteLine::Page(num) => "[main thread] page_num="@ + crate::text::digits_of(
                num as nat,
                10,
            ) + ", result="@ + value,
        }
    }

    /// Writes the line for a byte.
    pub fn line(self, byte: u8) -> (line: String)
        ensures
            line@ == self.line_of(byte),
    {
        let mut line = match self {
            ByteLine::GivenBack => "返却した 10000 ページ目を読み込んだ結果: ".to_owned(),
            ByteLine::First => "[main thread] result=".to_owned(),
            ByteLine::Second => "[main thread] 2回目 result=".to_owned(),
            ByteLine::Page(num) => {
                let mut line = "[main thread] page_num=".to_owned();
                append_number(&mut line, num as u64, 10);
                line.append(", result=");
                line
            },
        };
        append_number(&mut line, byte as u64, 10);
        line
    }
}

/// The line for two bytes.
pub open spec fn bytes_line_of(first: u8, second: u8) -> Seq<char> {
    "[main thread] first_byte="@ + crate::text::digits_of(first as nat, 10) + ", second_byte="@
        + crate::text::digits_of(second as nat, 10)
}

/// Writes the line for two bytes.
pub fn bytes_line(first: u8, second: u8) -> (line: String)
    ensures
        line@ == bytes_line_of(first, second),
{
    let mut line = "[main thread] first_byte=".to_owned();
    append_number(&mut line, first as u64, 10);
    line.append(", second_byte=");
    append_number(&mut line, second as u64, 10);
    line
}

impl EntryLine {
    /// What is written before an entry.
    pub open spec fn lead_of(self) -> Seq<char> {
        match self {
            EntryLine::BeforeFork => "fork 前: "@,
            EntryLine::ParentBeforeWait => "[親] waitpid 前: "@,
            EntryLine::ParentAfterWait => "[親] waitpid 後(子がexitした後): "@,
            EntryLine::ChildBeforeWrite => "[子] 書き込み前: "@,
            EntryLine::ChildAfterWrite => "[子] 書き込み後: "@,
        }
    }

    /// The line for an entry.
    pub open spec fn line_of(self, entry: PagemapEntry) -> Seq<char> {
        self.lead_of() + "PagemapEntry { present: "@ + (if entry.present {
            "true"@
        } else {
            "false"@
        }) + ", pfn: "@ + crate::text::digits_of(entry.pfn as nat, 10) + " }"@
    }

    /// Writes the line for an entry.
    pub fn line(self, entry: PagemapEntry) -> (line: String)
        ensures
            line@ == self.line_of(entry),
    {
        let mut line = match self {
            EntryLine::BeforeFork => "fork 前: ".to_owned(),
            EntryLine::ParentBeforeWait => "[親] waitpid 前: ".to_owned(),
            EntryLine::ParentAfterWait => "[親] waitpid 後(子がexitした後): ".to_owned(),
            EntryLine::ChildBeforeWrite => "[子] 書き込み前: ".to_owned(),
            EntryLine::ChildAfterWrite => "[子] 書き込み後: ".to_owned(),
        };
        line.append("PagemapEntry { present: ");
        line.append(
            if entry.present {
                "true"
            } else {
                "false"
            },
        );
        line.append(", pfn: ");
        append_number(&mut line, entry.pfn, 10);
        line.append(" }");
        line
    }
}

} // verus!

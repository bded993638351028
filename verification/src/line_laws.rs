//! What the lines that the programs write tell their reader: every value that goes into a line can
//! be read back from it.

use crate::maps::MappingView;
use crate::mem::{AddressLine, ByteLine, EntryLine, Filling, MemMessage};
use crate::pagemap::PagemapEntry;
use crate::run::{Message, Parent};
use crate::signal::Signal;
use crate::text_laws::{
    is_numeral, is_signed_numeral, numbers_are_written_plainly, signed_numbers_are_written_plainly,
};
use vstd::prelude::*;

verus! {

/// Whether a line is `inner` behind `head` and before `tail`.
pub open spec fn frames(line: Seq<char>, head: Seq<char>, inner: Seq<char>, tail: Seq<char>) -> bool {
    &&& line.len() == head.len() + inner.len() + tail.len()
    &&& head.is_prefix_of(line)
    &&& tail.is_suffix_of(line)
    &&& line.subrange(head.len() as int, line.len() - tail.len()) == inner
}

proof fn lemma_frames(head: Seq<char>, inner: Seq<char>, tail: Seq<char>)
    ensures
        frames(head + inner + tail, head, inner, tail),
        frames(head + inner, head, inner, Seq::empty()),
{
    let line = head + inner + tail;
    assert(line.take(head.len() as int) =~= head);
    assert(line.skip(line.len() - tail.len()) =~= tail);
    assert(line.subrange(head.len() as int, line.len() - tail.len()) =~= inner);
    let short = head + inner;
    assert(short.take(head.len() as int) =~= head);
    assert(short.skip(short.len() as int) =~= Seq::<char>::empty());
    assert(short.subrange(head.len() as int, short.len() as int) =~= inner);
}

/// Whether `line` is the numeral of a signed number, behind `head` and before `tail`.
pub open spec fn tells_signed(line: Seq<char>, head: Seq<char>, n: int, tail: Seq<char>) -> bool {
    exists|x: Seq<char>| #[trigger] is_signed_numeral(x, n) && frames(line, head, x, tail)
}

/// Whether `line` is the numeral of a number, behind `head` and before `tail`.
pub open spec fn tells(
    line: Seq<char>,
    head: Seq<char>,
    n: nat,
    radix: nat,
    tail: Seq<char>,
) -> bool {
    exists|x: Seq<char>| #[trigger] is_numeral(x, n, radix) && frames(line, head, x, tail)
}

proof fn lemma_tells(head: Seq<char>, n: nat, radix: nat, tail: Seq<char>)
    requires
        2 <= radix <= 16,
    ensures
        tells(head + crate::text::digits_of(n, radix) + tail, head, n, radix, tail),
        tells(head + crate::text::digits_of(n, radix), head, n, radix, Seq::empty()),
{
    numbers_are_written_plainly(n, radix);
    lemma_frames(head, crate::text::digits_of(n, radix), tail);
}

proof fn lemma_tells_signed(head: Seq<char>, n: int, tail: Seq<char>)
    ensures
        tells_signed(head + crate::text::signed_digits_of(n) + tail, head, n, tail),
        tells_signed(head + crate::text::signed_digits_of(n), head, n, Seq::empty()),
{
    signed_numbers_are_written_plainly(n);
    lemma_frames(head, crate::text::signed_digits_of(n), tail);
}

/// Whether a line is two signed numerals with `sep` between them, behind `head`.
pub open spec fn tells_two_signed(
    line: Seq<char>,
    head: Seq<char>,
    a: int,
    sep: Seq<char>,
    b: int,
) -> bool {
    exists|x: Seq<char>, y: Seq<char>| #[trigger]
        is_signed_numeral(x, a) && #[trigger] is_signed_numeral(y, b) && frames(
            line,
            head,
            x + sep + y,
            Seq::empty(),
        )
}

// ---------------------------------------------------------------------------------------------
// The command runner
// ---------------------------------------------------------------------------------------------

/// The line for what was captured tells how many bytes there are, and shows them as escaped text
/// between quotes.
pub proof fn captured_line_tells_count_and_text(captured: Seq<u8>, end: Seq<char>)
    ensures
        exists|x: Seq<char>| #[trigger]
            is_numeral(x, captured.len(), 10) && frames(
                Parent::line_of(captured, Message::Captured, end),
                "[myrun] captured "@ + x + " bytes: \""@,
                crate::run_lines::debug_escaped(crate::run_lines::utf8_lossy_text(captured)),
                "\""@,
            ),
{
    numbers_are_written_plainly(captured.len(), 10);
    let x = crate::text::digits_of(captured.len(), 10);
    lemma_frames(
        "[myrun] captured "@ + x + " bytes: \""@,
        crate::run_lines::debug_escaped(crate::run_lines::utf8_lossy_text(captured)),
        "\""@,
    );
}

/// The line for a number of bytes that are shown as `text` tells that number and shows that text.
pub proof fn captured_line_tells_what_it_is_given(count: nat, text: Seq<char>)
    ensures
        exists|x: Seq<char>| #[trigger]
            is_numeral(x, count, 10) && frames(
                crate::run_lines::captured_line_of(count, text),
                "[myrun] captured "@ + x + " bytes: \""@,
                text,
                "\""@,
            ),
{
    numbers_are_written_plainly(count, 10);
    let x = crate::text::digits_of(count, 10);
    lemma_frames("[myrun] captured "@ + x + " bytes: \""@, text, "\""@);
}

/// The line before `SIGTERM` tells the seconds and the process, that before `SIGKILL` the process.
pub proof fn signal_lines_tell_whom_they_reach(
    captured: Seq<u8>,
    secs: u32,
    pid: i32,
    end: Seq<char>,
)
    ensures
        exists|x: Seq<char>| #[trigger]
            is_numeral(x, secs as nat, 10) && tells_signed(
                Parent::line_of(captured, Message::TimedOut { secs, pid }, end),
                "[myrun] timeout ("@ + x + "s), sending SIGTERM to pid="@,
                pid as int,
                Seq::empty(),
            ),
        tells_signed(
            Parent::line_of(captured, Message::StillAlive { pid }, end),
            "[myrun] still alive after 1s, sending SIGKILL to pid="@,
            pid as int,
            Seq::empty(),
        ),
{
    numbers_are_written_plainly(secs as nat, 10);
    let x = crate::text::digits_of(secs as nat, 10);
    lemma_tells_signed(
        "[myrun] timeout ("@ + x + "s), sending SIGTERM to pid="@,
        pid as int,
        Seq::empty(),
    );
    lemma_tells_signed(
        "[myrun] still alive after 1s, sending SIGKILL to pid="@,
        pid as int,
        Seq::empty(),
    );
}

/// The line for the end of a child tells its process, and its status or the name of the signal; that
/// for an unexpected end shows that end.
pub proof fn end_lines_tell_how_the_child_ended(
    captured: Seq<u8>,
    pid: i32,
    status: i32,
    signal: Signal,
    end: Seq<char>,
)
    ensures
        tells_two_signed(
            Parent::line_of(captured, Message::Exited { pid, status }, end),
            "[myrun] pid="@,
            pid as int,
            " exited with "@,
            status as int,
        ),
        tells_signed(
            Parent::line_of(captured, Message::Killed { pid, signal }, end),
            "[myrun] pid="@,
            pid as int,
            " killed by signal "@ + crate::signal::name_of(signal),
        ),
        frames(
            Parent::line_of(captured, Message::Unexpected, end),
            "[Error] 子プロセスが exit 以外の結果を示しました: "@,
            end,
            Seq::empty(),
        ),
{
    let x = crate::text::signed_digits_of(pid as int);
    let y = crate::text::signed_digits_of(status as int);
    signed_numbers_are_written_plainly(pid as int);
    signed_numbers_are_written_plainly(status as int);
    lemma_frames("[myrun] pid="@, x + " exited with "@ + y, Seq::empty());
    assert("[myrun] pid="@ + (x + " exited with "@ + y) =~= "[myrun] pid="@ + x + " exited with "@
        + y);
    let name = crate::signal::name_of(signal);
    killed_line_tells_process_and_name(pid, name);
    lemma_frames("[Error] 子プロセスが exit 以外の結果を示しました: "@, end, Seq::empty());
}

/// The line for a killed child tells its process and the name that it is given.
pub proof fn killed_line_tells_process_and_name(pid: i32, name: Seq<char>)
    ensures
        tells_signed(
            crate::run_lines::killed_line_of(pid, name),
            "[myrun] pid="@,
            pid as int,
            " killed by signal "@ + name,
        ),
{
    let x = crate::text::signed_digits_of(pid as int);
    lemma_tells_signed("[myrun] pid="@, pid as int, " killed by signal "@ + name);
    assert("[myrun] pid="@ + x + (" killed by signal "@ + name) =~= "[myrun] pid="@ + x
        + " killed by signal "@ + name);
}

/// The lines for a failed `fork` and a failed copy show the error as they are given it.
pub proof fn failure_lines_show_the_error(error: Seq<char>)
    ensures
        frames(
            crate::run_lines::fork_failed_line_of(error),
            "[Error] fork に失敗しました: "@,
            error,
            Seq::empty(),
        ),
        frames(
            crate::copy::copy_failed_line_of(error),
            "[Error] ファイルコピーに失敗しました。"@,
            error,
            Seq::empty(),
        ),
{
    lemma_frames("[Error] fork に失敗しました: "@, error, Seq::empty());
    lemma_frames("[Error] ファイルコピーに失敗しました。"@, error, Seq::empty());
}

// ---------------------------------------------------------------------------------------------
// The memory map
// ---------------------------------------------------------------------------------------------

/// The line for the total tells how many whole units of 1024 bytes it holds.
pub proof fn total_line_tells_whole_units(total: nat)
    ensures
        exists|k: nat|
            1024 * k <= total < 1024 * (k + 1) && #[trigger] tells(
                crate::maps::total_line_of(total),
                "全マッピングのサイズ合計: "@,
                k,
                10,
                "kB"@,
            ),
{
    let k = total / 1024;
    lemma_tells("全マッピングのサイズ合計: "@, k, 10, "kB"@);
    assert(tells(
        crate::maps::total_line_of(total),
        "全マッピングのサイズ合計: "@,
        k,
        10,
        "kB"@,
    ));
}

/// The path of a mapping as it is shown, or the mark of an anonymous mapping.
pub open spec fn shown_path(m: MappingView) -> Seq<char> {
    match m.path {
        Some(p) => p,
        None => "[匿名]"@,
    }
}

/// The line for a mapping tells where it starts and ends, in hexadecimal, its size in whole units
/// of 1024 bytes in a field of at least eight characters, its permissions and its path.
pub proof fn mapping_line_tells_the_mapping(m: MappingView)
    requires
        m.start <= m.end,
    ensures
        exists|a: Seq<char>, b: Seq<char>, k: Seq<char>, gap: nat|
            {
                &&& #[trigger] is_numeral(a, m.start as nat, 16)
                &&& #[trigger] is_numeral(b, m.end as nat, 16)
                &&& #[trigger] is_numeral(k, ((m.end - m.start) / 1024) as nat, 10)
                &&& gap + k.len() == (if k.len() < 8 {
                    8
                } else {
                    k.len()
                })
                &&& crate::maps::mapping_line_of(m) == a + "-"@ + b + " "@
                    + #[trigger] crate::maps::spaces(gap) + k + " KiB "@ + m.permissions + " "@
                    + shown_path(m)
            },
{
    let a = crate::text::digits_of(m.start as nat, 16);
    let b = crate::text::digits_of(m.end as nat, 16);
    let n = ((m.end - m.start) / 1024) as nat;
    let k = crate::text::digits_of(n, 10);
    numbers_are_written_plainly(m.start as nat, 16);
    numbers_are_written_plainly(m.end as nat, 16);
    numbers_are_written_plainly(n, 10);
    let gap: nat = if k.len() < 8 {
        (8 - k.len()) as nat
    } else {
        0
    };
    assert(crate::maps::mapping_line_of(m) =~= a + "-"@ + b + " "@ + crate::maps::spaces(gap) + k
        + " KiB "@ + m.permissions + " "@ + shown_path(m));
}

// ---------------------------------------------------------------------------------------------
// The experiments
// ---------------------------------------------------------------------------------------------

/// The word for a truth value.
pub open spec fn word_for(b: bool) -> Seq<char> {
    if b {
        "true"@
    } else {
        "false"@
    }
}

/// The line for an entry shows the entry: the word behind `present: ` is that for whether the page
/// is present, whatever the number of the page, and what stands behind `pfn: ` is the numeral of
/// that number, whether the page is present or not.
pub proof fn entry_line_shows_the_entry(line: EntryLine, entry: PagemapEntry)
    ensures
        tells(
            line.line_of(entry),
            line.lead_of() + "PagemapEntry { present: "@ + word_for(entry.present) + ", pfn: "@,
            entry.pfn as nat,
            10,
            " }"@,
        ),
{
    lemma_tells(
        line.lead_of() + "PagemapEntry { present: "@ + word_for(entry.present) + ", pfn: "@,
        entry.pfn as nat,
        10,
        " }"@,
    );
}

/// Two entries that differ have different lines.
pub proof fn entry_lines_tell_entries_apart(line: EntryLine, a: PagemapEntry, b: PagemapEntry)
    requires
        line.line_of(a) == line.line_of(b),
    ensures
        a == b,
{
    let head = line.lead_of() + "PagemapEntry { present: "@;
    let at = head.len() as int;
    reveal_strlit("true");
    reveal_strlit("false");
    assert(line.line_of(a)[at] == word_for(a.present)[0]);
    assert(line.line_of(b)[at] == word_for(b.present)[0]);
    assert(a.present == b.present);
    let front = head + word_for(a.present) + ", pfn: "@;
    let x = crate::text::digits_of(a.pfn as nat, 10);
    let y = crate::text::digits_of(b.pfn as nat, 10);
    assert(line.line_of(a) == front + x + " }"@);
    assert(line.line_of(b) == front + y + " }"@);
    lemma_frames(front, x, " }"@);
    lemma_frames(front, y, " }"@);
    assert(x == y);
    crate::text::lemma_digits(a.pfn as nat, 10);
    crate::text::lemma_digits(b.pfn as nat, 10);
}

/// The line that reports written pages tells how many, and the line for a child that exited tells
/// its process and its status.
pub proof fn messages_tell_their_numbers(n: usize, pid: i32, status: i32)
    ensures
        tells(
            MemMessage::PagesWritten(n).line_of(),
            "----- "@,
            n as nat,
            10,
            " ページ書き込み完了 -----"@,
        ),
        tells_two_signed(
            (MemMessage::ChildExited { pid, status }).line_of(),
            "[parent][waitpid後] pid="@,
            pid as int,
            " exited with "@,
            status as int,
        ),
{
    lemma_tells("----- "@, n as nat, 10, " ページ書き込み完了 -----"@);
    let head = "[parent][waitpid後] pid="@;
    let x = crate::text::signed_digits_of(pid as int);
    let y = crate::text::signed_digits_of(status as int);
    signed_numbers_are_written_plainly(pid as int);
    signed_numbers_are_written_plainly(status as int);
    lemma_frames(head, x + " exited with "@ + y, Seq::empty());
    assert(head + (x + " exited with "@ + y) =~= head + x + " exited with "@ + y);
}

/// The lines for an address tell it in hexadecimal.
pub proof fn address_lines_tell_the_address(addr: nat)
    ensures
        tells(crate::mem_lines::address_text(addr), "0x"@, addr, 16, Seq::empty()),
        tells(
            AddressLine::Mapped.line_of(addr),
            "mmap_anonymous の返した値: "@ + "0x"@,
            addr,
            16,
            Seq::empty(),
        ),
        tells(
            AddressLine::Start.line_of(addr),
            "[main thread] start_addr="@ + "0x"@,
            addr,
            16,
            Seq::empty(),
        ),
{
    let x = crate::text::digits_of(addr, 16);
    lemma_tells("0x"@, addr, 16, Seq::empty());
    lemma_tells("mmap_anonymous の返した値: "@ + "0x"@, addr, 16, Seq::empty());
    lemma_tells("[main thread] start_addr="@ + "0x"@, addr, 16, Seq::empty());
    assert("mmap_anonymous の返した値: "@ + "0x"@ + x =~= "mmap_anonymous の返した値: "@ + ("0x"@
        + x));
    assert("[main thread] start_addr="@ + "0x"@ + x =~= "[main thread] start_addr="@ + ("0x"@ + x));
}

/// The lines for bytes tell the bytes, and the number of the page where there is one.
pub proof fn byte_lines_tell_the_bytes(byte: u8, other: u8, num: usize)
    ensures
        tells(
            ByteLine::GivenBack.line_of(byte),
            "返却した 10000 ページ目を読み込んだ結果: "@,
            byte as nat,
            10,
            Seq::empty(),
        ),
        tells(
            ByteLine::First.line_of(byte),
            "[main thread] result="@,
            byte as nat,
            10,
            Seq::empty(),
        ),
        tells(
            ByteLine::Second.line_of(byte),
            "[main thread] 2回目 result="@,
            byte as nat,
            10,
            Seq::empty(),
        ),
        exists|x: Seq<char>| #[trigger]
            is_numeral(x, num as nat, 10) && tells(
                ByteLine::Page(num).line_of(byte),
                "[main thread] page_num="@ + x + ", result="@,
                byte as nat,
                10,
                Seq::empty(),
            ),
        exists|x: Seq<char>| #[trigger]
            is_numeral(x, byte as nat, 10) && tells(
                crate::mem_lines::bytes_line_of(byte, other),
                "[main thread] first_byte="@ + x + ", second_byte="@,
                other as nat,
                10,
                Seq::empty(),
            ),
{
    let n = byte as nat;
    lemma_tells("返却した 10000 ページ目を読み込んだ結果: "@, n, 10, Seq::empty());
    lemma_tells("[main thread] result="@, n, 10, Seq::empty());
    lemma_tells("[main thread] 2回目 result="@, n, 10, Seq::empty());
    numbers_are_written_plainly(num as nat, 10);
    let x = crate::text::digits_of(num as nat, 10);
    lemma_tells("[main thread] page_num="@ + x + ", result="@, n, 10, Seq::empty());
    numbers_are_written_plainly(n, 10);
    let y = crate::text::digits_of(n, 10);
    lemma_tells(
        "[main thread] first_byte="@ + y + ", second_byte="@,
        other as nat,
        10,
        Seq::empty(),
    );
}

/// The line for an argument that names no step shows the argument as it is quoted, or that there is
/// none.
pub proof fn fallback_line_shows_the_argument(quoted: Seq<char>)
    ensures
        frames(
            crate::mem_lines::fallback_line_of(Some(quoted)),
            "[Fallback] 引数で明示された step が無効("@ + "Some("@,
            quoted,
            ")"@ + ")なため、step2 を実行します。"@,
        ),
        frames(
            crate::mem_lines::fallback_line_of(None),
            "[Fallback] 引数で明示された step が無効("@,
            "None"@,
            ")なため、step2 を実行します。"@,
        ),
{
    let head = "[Fallback] 引数で明示された step が無効("@;
    let tail = ")なため、step2 を実行します。"@;
    lemma_frames(head + "Some("@, quoted, ")"@ + tail);
    assert(head + "Some("@ + quoted + (")"@ + tail) =~= head + ("Some("@ + quoted + ")"@) + tail);
    lemma_frames(head, "None"@, tail);
}

/// The lines about a touched page tell the number or the place of the page, how many pages were
/// read so far, the kind of the touch as they are given it, and the address.
pub proof fn touch_lines_tell_page_and_address(
    page: nat,
    count: int,
    kind: Seq<char>,
    rw: Seq<char>,
    addr: nat,
)
    ensures
        exists|x: Seq<char>| #[trigger]
            is_numeral(x, page, 10) && tells(
                crate::fault::number_line_of(page, kind, rw, addr),
                "[another thread] ページフォルト発生(page_num="@ + x + "): "@ + kind + ", "@ + rw
                    + ", "@ + "0x"@,
                addr,
                16,
                Seq::empty(),
            ),
        exists|x: Seq<char>, y: Seq<char>| #[trigger]
            is_numeral(x, page, 10) && #[trigger] is_signed_numeral(y, count) && tells(
                crate::fault::snapshot_line_of(page, count, kind, rw, addr),
                "[Handler Thread] Pagefault! (i="@ + x + ")(読み込んだページ数="@ + y + "): "@
                    + kind + ", "@ + rw + ", "@ + "0x"@,
                addr,
                16,
                Seq::empty(),
            ),
{
    let x = crate::text::digits_of(page, 10);
    let y = crate::text::signed_digits_of(count);
    let a = crate::text::digits_of(addr, 16);
    numbers_are_written_plainly(page, 10);
    signed_numbers_are_written_plainly(count);
    let h = "[another thread] ページフォルト発生(page_num="@ + x + "): "@ + kind + ", "@ + rw
        + ", "@ + "0x"@;
    lemma_tells(h, addr, 16, Seq::empty());
    assert(crate::fault::number_line_of(page, kind, rw, addr) =~= h + a);
    let g = "[Handler Thread] Pagefault! (i="@ + x + ")(読み込んだページ数="@ + y + "): "@ + kind
        + ", "@ + rw + ", "@ + "0x"@;
    lemma_tells(g, addr, 16, Seq::empty());
    assert(crate::fault::snapshot_line_of(page, count, kind, rw, addr) =~= g + a);
}

/// The line for another event shows it as it is given it.
pub proof fn event_lines_show_the_event(event: Seq<char>)
    ensures
        frames(
            crate::fault::other_line_of(Filling::Number, event),
            "[another thread] ページフォルト以外のイベント検知: "@,
            event,
            Seq::empty(),
        ),
        frames(
            crate::fault::other_line_of(Filling::Snapshot, event),
            "[Handler Thread] Pagefault 以外のイベントを検知しました: "@,
            event,
            Seq::empty(),
        ),
{
    lemma_frames("[another thread] ページフォルト以外のイベント検知: "@, event, Seq::empty());
    lemma_frames(
        "[Handler Thread] Pagefault 以外のイベントを検知しました: "@,
        event,
        Seq::empty(),
    );
}

} // verus!

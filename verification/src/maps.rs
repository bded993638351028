//! The memory map of a process, as `/proc/[pid]/maps` gives it.
//!
//! Each line describes one mapping:
//!
//! ```text
//! 76620e828000-76620e9b0000 r-xp 00028000 08:01 6456   /usr/lib/x86_64-linux-gnu/libc.so.6
//! ```
//!
//! The columns are the address range (hexadecimal, its end excluded), the permissions, the offset
//! into the file, the device, the inode and the path. An anonymous mapping has no path.

use crate::text::{
    append_flush_right, append_number, parse_number, split, split_nonempty, Cut,
};
use vstd::prelude::*;

verus! {

/// One mapping of a process's address space.
#[derive(Debug, PartialEq, Eq)]
pub struct Mapping {
    /// The first address.
    pub start: u64,
    /// The first address behind the mapping.
    pub end: u64,
    /// `r`, `w` and `x`, and `p` (private) or `s` (shared); `-` for what is missing.
    pub permissions: String,
    /// The file, a special region such as `[heap]`, or nothing for an anonymous mapping.
    pub path: Option<String>,
}

/// What a mapping holds.
#[verifier::ext_equal]
pub struct MappingView {
    pub start: u64,
    pub end: u64,
    pub permissions: Seq<char>,
    pub path: Option<Seq<char>>,
}

impl View for Mapping {
    type V = MappingView;

    open spec fn view(&self) -> MappingView {
        MappingView {
            start: self.start,
            end: self.end,
            permissions: self.permissions@,
            path: match self.path {
                Some(p) => Some(p@),
                None => None,
            },
        }
    }
}

/// Why a line describes no mapping.
#[derive(Clone, Copy, Debug, PartialEq, Eq, Structural)]
pub enum MappingError {
    /// The line holds no word.
    NoRange,
    /// The start of the address range is not a hexadecimal number of 64 bits.
    BadStart,
    /// The address range has no end.
    NoEnd,
    /// The end of the address range is not a hexadecimal number of 64 bits.
    BadEnd,
    /// No permissions follow the address range.
    NoPermissions,
}

/// The words of a line.
pub open spec fn words_of(line: Seq<char>) -> Seq<Seq<char>> {
    crate::text::nonempty(crate::text::pieces_of(line, Cut::White))
}

/// An address as the kernel writes it.
pub open spec fn address_of(s: Seq<char>) -> Option<nat> {
    crate::text::number_of(s, 16, u64::MAX as nat)
}

/// The mapping that a line describes: its first word is the address range, its second the
/// permissions, and its sixth, where there is one, the path.
pub open spec fn mapping_of(line: Seq<char>) -> Result<MappingView, MappingError> {
    let words = words_of(line);
    if words.len() == 0 {
        Err(MappingError::NoRange)
    } else {
        let range = crate::text::pieces_of(words[0], Cut::At('-'));
        if address_of(range[0]) is None {
            Err(MappingError::BadStart)
        } else if range.len() < 2 {
            Err(MappingError::NoEnd)
        } else if address_of(range[1]) is None {
            Err(MappingError::BadEnd)
        } else if words.len() < 2 {
            Err(MappingError::NoPermissions)
        } else {
            Ok(
                MappingView {
                    start: address_of(range[0])->Some_0 as u64,
                    end: address_of(range[1])->Some_0 as u64,
                    permissions: words[1],
                    path: if words.len() > 5 {
                        Some(words[5])
                    } else {
                        None
                    },
                },
            )
        }
    }
}

impl Mapping {
    /// Reads the mapping that a line describes, or says what the line lacks.
    pub fn try_parse(line: &str) -> (r: Result<Mapping, MappingError>)
        ensures
            r is Ok <==> mapping_of(line@) is Ok,
            r matches Ok(m) ==> mapping_of(line@) == Ok::<MappingView, MappingError>(m@),
            r matches Err(e) ==> mapping_of(line@) == Err::<MappingView, MappingError>(e),
    {
        let words = split_nonempty(line, Cut::White);
        let ghost ws = crate::text::texts(words@);
        assert(ws == words_of(line@));
        if words.len() == 0 {
            return Err(MappingError::NoRange);
        }
        assert(ws[0] == words@[0]@);
        let range = split(words[0].as_str(), Cut::At('-'));
        let ghost rs = crate::text::texts(range@);
        proof {
            crate::text::lemma_pieces_nonempty(ws[0], Cut::At('-'));
            assert(rs[0] == range@[0]@);
        }
        let start = match parse_number(range[0].as_str(), 16, u64::MAX) {
            Some(n) => n,
            None => {
                return Err(MappingError::BadStart);
            },
        };
        if range.len() < 2 {
            return Err(MappingError::NoEnd);
        }
        assert(rs[1] == range@[1]@);
        let end = match parse_number(range[1].as_str(), 16, u64::MAX) {
            Some(n) => n,
            None => {
                return Err(MappingError::BadEnd);
            },
        };
        if words.len() < 2 {
            return Err(MappingError::NoPermissions);
        }
        assert(ws[1] == words@[1]@);
        let path = if words.len() > 5 {
            assert(ws[5] == words@[5]@);
            Some(words[5].clone())
        } else {
            None
        };
        Ok(Mapping { start, end, permissions: words[1].clone(), path })
    }

    /// Reads the mapping that a line describes.
    pub fn parse(line: &str) -> (m: Mapping)
        requires
            mapping_of(line@) is Ok,
        ensures
            mapping_of(line@) == Ok::<MappingView, MappingError>(m@),
    {
        match Mapping::try_parse(line) {
            Ok(m) => m,
            Err(_) => vstd::pervasive::unreached(),
        }
    }

    /// Whether the mapping does not end before it starts.
    pub open spec fn ordered(&self) -> bool {
        self.start <= self.end
    }

    /// The size of the mapping in bytes.
    pub fn size(&self) -> (n: u64)
        requires
            self.ordered(),
        ensures
            n == self.end - self.start,
    {
        self.end - self.start
    }
}

/// The lines of a text that are not empty.
pub open spec fn lines_of(text: Seq<char>) -> Seq<Seq<char>> {
    crate::text::nonempty(crate::text::pieces_of(text, Cut::At('\n')))
}

/// What a list of mappings holds.
pub open spec fn views(ms: Seq<Mapping>) -> Seq<MappingView> {
    Seq::new(ms.len(), |i: int| ms[i]@)
}

/// Whether `ms` are the mappings that the lines describe, one for each line.
pub open spec fn describes(lines: Seq<Seq<char>>, ms: Seq<MappingView>) -> bool {
    &&& ms.len() == lines.len()
    &&& forall|i: int|
        0 <= i < lines.len() ==> #[trigger] mapping_of(lines[i]) == Ok::<
            MappingView,
            MappingError,
        >(ms[i])
}

/// Whether `e` is what the first line that describes no mapping lacks.
pub open spec fn first_error(lines: Seq<Seq<char>>, e: MappingError) -> bool {
    exists|i: int|
        {
            &&& 0 <= i < lines.len()
            &&& #[trigger] mapping_of(lines[i]) == Err::<MappingView, MappingError>(e)
            &&& forall|j: int| 0 <= j < i ==> #[trigger] mapping_of(lines[j]) is Ok
        }
}

/// Reads the mappings that a text describes, one in each line that is not empty.
pub fn read_mappings(text: &str) -> (r: Result<Vec<Mapping>, MappingError>)
    ensures
        r is Ok <==> forall|i: int|
            0 <= i < lines_of(text@).len() ==> (#[trigger] mapping_of(lines_of(text@)[i])) is Ok,
        r matches Ok(ms) ==> describes(lines_of(text@), views(ms@)),
        r matches Err(e) ==> first_error(lines_of(text@), e),
{
    let lines = split_nonempty(text, Cut::At('\n'));
    let ghost ls = crate::text::texts(lines@);
    let mut out: Vec<Mapping> = Vec::new();
    let mut i: usize = 0;
    while i < lines.len()
        invariant
            i <= lines.len(),
            ls == crate::text::texts(lines@),
            ls == lines_of(text@),
            out.len() == i,
            forall|j: int|
                0 <= j < i ==> #[trigger] mapping_of(ls[j]) == Ok::<MappingView, MappingError>(
                    out@[j]@,
                ),
        decreases lines.len() - i,
    {
        assert(ls[i as int] == lines@[i as int]@);
        match Mapping::try_parse(lines[i].as_str()) {
            Ok(m) => {
                out.push(m);
            },
            Err(e) => {
                return Err(e);
            },
        }
        i = i + 1;
    }
    Ok(out)
}

/// Whether no mapping of a list ends before it starts.
pub open spec fn all_ordered(ms: Seq<Mapping>) -> bool {
    forall|i: int| 0 <= i < ms.len() ==> (#[trigger] ms[i]).ordered()
}

/// The sum of the sizes of a list of mappings.
pub open spec fn total_of(ms: Seq<Mapping>) -> int
    decreases ms.len(),
{
    if ms.len() == 0 {
        0
    } else {
        total_of(ms.drop_last()) + (ms.last().end - ms.last().start)
    }
}

proof fn lemma_total_grows(ms: Seq<Mapping>, k: int)
    requires
        0 <= k <= ms.len(),
        all_ordered(ms),
    ensures
        0 <= total_of(ms.take(k)) <= total_of(ms),
    decreases ms.len(),
{
    if ms.len() == 0 {
        assert(ms.take(k) =~= ms);
    } else if k < ms.len() {
        assert(ms[ms.len() - 1].ordered());
        lemma_total_grows(ms.drop_last(), k);
        assert(ms.drop_last().take(k) =~= ms.take(k));
    } else {
        assert(ms.take(k) =~= ms);
        assert(ms[ms.len() - 1].ordered());
        lemma_total_grows(ms.drop_last(), ms.len() - 1);
        assert(ms.drop_last().take(ms.len() - 1) =~= ms.drop_last());
    }
}

/// The sum of the sizes of the mappings, in bytes. There is none where a mapping ends before it
/// starts, or where the sum takes more than 64 bits.
pub fn total_mapping_size(ms: &[Mapping]) -> (r: Option<u64>)
    ensures
        r is Some <==> all_ordered(ms@) && total_of(ms@) <= u64::MAX,
        r matches Some(n) ==> n == total_of(ms@),
{
    let mut total: u64 = 0;
    let mut i: usize = 0;
    assert(ms@.take(0) =~= Seq::<Mapping>::empty());
    while i < ms.len()
        invariant
            i <= ms.len(),
            total == total_of(ms@.take(i as int)),
            all_ordered(ms@.take(i as int)),
        decreases ms.len() - i,
    {
        let ghost next = ms@.take(i + 1);
        assert(next.drop_last() =~= ms@.take(i as int));
        assert(next.last() == ms@[i as int]);
        if ms[i].start > ms[i].end {
            assert(!ms@[i as int].ordered());
            return None;
        }
        assert(all_ordered(next)) by {
            assert forall|j: int| 0 <= j < next.len() implies (#[trigger] next[j]).ordered() by {
                if j < i {
                    assert(next[j] == ms@.take(i as int)[j]);
                }
            }
        }
        total = match total.checked_add(ms[i].size()) {
            Some(n) => n,
            None => {
                proof {
                    if all_ordered(ms@) {
                        lemma_total_grows(ms@, i + 1);
                    }
                }
                return None;
            },
        };
        i = i + 1;
    }
    assert(ms@.take(i as int) =~= ms@);
    Some(total)
}

/// The line that reports the sum of the sizes, in units of 1024 bytes.
pub open spec fn total_line_of(total: nat) -> Seq<char> {
    "全マッピングのサイズ合計: "@ + crate::text::digits_of(total / 1024, 10) + "kB"@
}

/// Writes the line that reports the sum of the sizes.
pub fn total_line(total: u64) -> (line: String)
    ensures
        line@ == total_line_of(total as nat),
{
    let mut line = "全マッピングのサイズ合計: ".to_owned();
    append_number(&mut line, total / 1024, 10);
    line.append("kB");
    line
}

/// The line that shows a mapping: its range, its size in units of 1024 bytes set flush right, its
/// permissions, and its path or a mark that it is anonymous.
pub open spec fn mapping_line_of(m: MappingView) -> Seq<char> {
    crate::text::digits_of(m.start as nat, 16) + "-"@ + crate::text::digits_of(m.end as nat, 16)
        + " "@ + crate::text::flush_right(
        crate::text::digits_of(((m.end - m.start) / 1024) as nat, 10),
        8,
    ) + " KiB "@ + m.permissions + " "@ + match m.path {
        Some(p) => p,
        None => "[匿名]"@,
    }
}

/// Writes the line that shows a mapping.
pub fn mapping_line(m: &Mapping) -> (line: String)
    requires
        m.ordered(),
    ensures
        line@ == mapping_line_of(m@),
{
    let mut line = String::new();
    append_number(&mut line, m.start, 16);
    assert(line@ =~= crate::text::digits_of(m.start as nat, 16));
    line.append("-");
    append_number(&mut line, m.end, 16);
    line.append(" ");
    let mut kib = String::new();
    append_number(&mut kib, m.size() / 1024, 10);
    assert(kib@ =~= crate::text::digits_of(((m.end - m.start) / 1024) as nat, 10));
    append_flush_right(&mut line, kib.as_str(), 8);
    line.append(" KiB ");
    line.append(m.permissions.as_str());
    line.append(" ");
    match &m.path {
        Some(p) => line.append(p.as_str()),
        None => line.append("[匿名]"),
    }
    line
}

/// Writes the lines that show the mappings, in their order.
pub fn mapping_lines(ms: &[Mapping]) -> (lines: Vec<String>)
    requires
        all_ordered(ms@),
    ensures
        crate::text::texts(lines@) == Seq::new(ms@.len(), |i: int| mapping_line_of(ms@[i]@)),
{
    let mut lines: Vec<String> = Vec::new();
    let mut i: usize = 0;
    while i < ms.len()
        invariant
            i <= ms.len(),
            all_ordered(ms@),
            lines.len() == i,
            forall|j: int| 0 <= j < i ==> (#[trigger] lines@[j])@ == mapping_line_of(ms@[j]@),
        decreases ms.len() - i,
    {
        assert(ms@[i as int].ordered());
        lines.push(mapping_line(&ms[i]));
        i = i + 1;
    }
    assert(crate::text::texts(lines@) =~= Seq::new(ms@.len(), |i: int| mapping_line_of(ms@[i]@)));
    lines
}

/// Whether a text can stand in a column: it is not empty and holds no white space.
pub open spec fn is_word(s: Seq<char>) -> bool {
    &&& s.len() > 0
    &&& forall|i: int| 0 <= i < s.len() ==> !crate::text::white(#[trigger] s[i])
}

/// A run of spaces.
pub open spec fn spaces(n: nat) -> Seq<char> {
    Seq::new(n, |i: int| ' ')
}

/// An address range as the kernel writes it.
pub open spec fn range_text(start: u64, end: u64) -> Seq<char> {
    crate::text::digits_of(start as nat, 16).push('-') + crate::text::digits_of(end as nat, 16)
}

/// The line that the kernel writes for a mapping, with `gap` spaces behind the inode.
pub open spec fn kernel_line(
    m: MappingView,
    offset: Seq<char>,
    device: Seq<char>,
    inode: Seq<char>,
    gap: nat,
) -> Seq<char> {
    range_text(m.start, m.end).push(' ') + (m.permissions.push(' ') + (offset.push(' ') + (
    device.push(' ') + (inode + (spaces(gap) + match m.path {
        Some(p) => p,
        None => Seq::empty(),
    })))))
}

proof fn lemma_words_behind_spaces(n: nat, s: Seq<char>)
    ensures
        words_of(spaces(n) + s) == words_of(s),
    decreases n,
{
    if n == 0 {
        assert(spaces(n) + s =~= s);
    } else {
        lemma_words_behind_spaces((n - 1) as nat, s);
        let e = Seq::<char>::empty();
        assert(spaces(n) + s =~= e.push(' ') + (spaces((n - 1) as nat) + s));
        crate::text::lemma_nonempty_around_cut(e, ' ', spaces((n - 1) as nat) + s, Cut::White);
        lemma_no_words();
        assert(words_of(e) + words_of(s) =~= words_of(s));
    }
}

proof fn lemma_no_words()
    ensures
        words_of(Seq::empty()) == Seq::<Seq<char>>::empty(),
{
    let e = Seq::<char>::empty();
    let ps = crate::text::pieces_of(e, Cut::White);
    assert(ps =~= seq![e]);
    reveal_with_fuel(Seq::filter, 2);
    assert(ps.drop_last() =~= Seq::empty());
    assert(crate::text::nonempty(ps) =~= Seq::empty());
}

proof fn lemma_word_first(w: Seq<char>, rest: Seq<char>)
    requires
        is_word(w),
    ensures
        words_of(w.push(' ') + rest) == seq![w] + words_of(rest),
{
    crate::text::lemma_nonempty_around_cut(w, ' ', rest, Cut::White);
    assert forall|i: int| 0 <= i < w.len() implies !Cut::White.cuts(#[trigger] w[i]) by {
        assert(!crate::text::white(w[i]));
    }
    crate::text::lemma_one_word(w, Cut::White);
}

proof fn lemma_range_text(start: u64, end: u64)
    ensures
        is_word(range_text(start, end)),
        crate::text::pieces_of(range_text(start, end), Cut::At('-')) == seq![
            crate::text::digits_of(start as nat, 16),
            crate::text::digits_of(end as nat, 16),
        ],
{
    let a = crate::text::digits_of(start as nat, 16);
    let b = crate::text::digits_of(end as nat, 16);
    crate::text::lemma_digits(start as nat, 16);
    crate::text::lemma_digits(end as nat, 16);
    let r = range_text(start, end);
    let cut = Cut::At('-');
    assert forall|i: int| 0 <= i < a.len() implies !cut.cuts(#[trigger] a[i]) by {
        assert(crate::text::digit_value(a[i]) < 16);
    }
    assert forall|i: int| 0 <= i < b.len() implies !cut.cuts(#[trigger] b[i]) by {
        assert(crate::text::digit_value(b[i]) < 16);
    }
    assert forall|i: int| 0 <= i < r.len() implies !crate::text::white(#[trigger] r[i]) by {
        if i < a.len() {
            assert(crate::text::digit_value(a[i]) < 16);
        } else if i > a.len() {
            assert(r[i] == b[i - a.len() - 1]);
            assert(crate::text::digit_value(b[i - a.len() - 1]) < 16);
        }
    }
    crate::text::lemma_pieces_around_cut(a, '-', b, cut);
    crate::text::lemma_one_piece(a, cut);
    crate::text::lemma_one_piece(b, cut);
    assert(seq![a] + seq![b] =~= seq![a, b]);
}

/// A line in the kernel's format describes the mapping that it was written for, whatever stands
/// in the columns between the permissions and the path, and however wide the gap before the path.
pub proof fn kernel_line_describes_mapping(
    m: MappingView,
    offset: Seq<char>,
    device: Seq<char>,
    inode: Seq<char>,
    gap: nat,
)
    requires
        is_word(m.permissions),
        is_word(offset),
        is_word(device),
        is_word(inode),
        m.path matches Some(p) ==> is_word(p) && gap > 0,
    ensures
        mapping_of(kernel_line(m, offset, device, inode, gap)) == Ok::<MappingView, MappingError>(
            m,
        ),
{
    let range = range_text(m.start, m.end);
    let path = match m.path {
        Some(p) => p,
        None => Seq::empty(),
    };
    let tail = inode + (spaces(gap) + path);
    lemma_range_text(m.start, m.end);
    lemma_word_first(
        range,
        m.permissions.push(' ') + (offset.push(' ') + (device.push(' ') + tail)),
    );
    lemma_word_first(m.permissions, offset.push(' ') + (device.push(' ') + tail));
    lemma_word_first(offset, device.push(' ') + tail);
    lemma_word_first(device, tail);
    if gap == 0 {
        assert(tail =~= inode);
        assert forall|i: int| 0 <= i < inode.len() implies !Cut::White.cuts(
            #[trigger] inode[i],
        ) by {
            assert(!crate::text::white(inode[i]));
        }
        crate::text::lemma_one_word(inode, Cut::White);
    } else {
        let less = (gap - 1) as nat;
        assert(tail =~= inode.push(' ') + (spaces(less) + path));
        lemma_word_first(inode, spaces(less) + path);
        lemma_words_behind_spaces(less, path);
        if m.path is Some {
            assert forall|i: int| 0 <= i < path.len() implies !Cut::White.cuts(
                #[trigger] path[i],
            ) by {
                assert(!crate::text::white(path[i]));
            }
            crate::text::lemma_one_word(path, Cut::White);
        } else {
            lemma_no_words();
        }
    }
    let words = words_of(kernel_line(m, offset, device, inode, gap));
    let last: Seq<Seq<char>> = if m.path is Some {
        seq![path]
    } else {
        Seq::empty()
    };
    assert(words =~= seq![range, m.permissions, offset, device, inode] + last);
    crate::text::written_number_reads_back(m.start as nat, 16, u64::MAX as nat);
    crate::text::written_number_reads_back(m.end as nat, 16, u64::MAX as nat);
}

/// The mappings of two lists together take as much as those of each list.
pub proof fn total_of_both(a: Seq<Mapping>, b: Seq<Mapping>)
    ensures
        total_of(a + b) == total_of(a) + total_of(b),
    decreases b.len(),
{
    if b.len() == 0 {
        assert(a + b =~= a);
    } else {
        total_of_both(a, b.drop_last());
        assert((a + b).drop_last() =~= a + b.drop_last());
    }
}

} // verus!

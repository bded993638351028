//! What holds of reading `/proc`: the memory map, the reports and the pagemap.

use crate::maps::{Mapping, MappingError, MappingView};
use crate::pagemap::PagemapEntry;
use crate::status::Report;
use crate::text::Cut;
use vstd::arithmetic::power::pow;
use vstd::prelude::*;

verus! {

// ---------------------------------------------------------------------------------------------
// The memory map
// ---------------------------------------------------------------------------------------------

proof fn lemma_first_word(w: Seq<char>, rest: Seq<char>)
    requires
        crate::maps::is_word(w),
    ensures
        crate::maps::words_of(w.push(' ') + rest) == seq![w] + crate::maps::words_of(rest),
{
    assert forall|i: int| 0 <= i < w.len() implies !Cut::White.cuts(#[trigger] w[i]) by {
        assert(!crate::text::white(w[i]));
    }
    crate::text::lemma_nonempty_around_cut(w, ' ', rest, Cut::White);
    crate::text::lemma_one_word(w, Cut::White);
}

/// Whether a text holds no hyphen.
pub open spec fn no_hyphen(s: Seq<char>) -> bool {
    forall|i: int| 0 <= i < s.len() ==> #[trigger] s[i] != '-'
}

proof fn lemma_one_address(a: Seq<char>)
    requires
        no_hyphen(a),
    ensures
        crate::text::pieces_of(a, Cut::At('-')) == seq![a],
{
    assert forall|i: int| 0 <= i < a.len() implies !Cut::At('-').cuts(#[trigger] a[i]) by {
        assert(a[i] != '-');
    }
    crate::text::lemma_one_piece(a, Cut::At('-'));
}

/// A line without a hyphen in its first word gives no start if that word is no address, and no end
/// otherwise, whatever follows it.
pub proof fn line_without_hyphen_lacks_an_end(a: Seq<char>, rest: Seq<char>)
    requires
        crate::maps::is_word(a),
        no_hyphen(a),
    ensures
        crate::maps::mapping_of(a.push(' ') + rest) == Err::<MappingView, MappingError>(
            if crate::text::number_of(a, 16, 0xffff_ffff_ffff_ffff) is None {
                MappingError::BadStart
            } else {
                MappingError::NoEnd
            },
        ),
{
    lemma_first_word(a, rest);
    lemma_one_address(a);
    assert((seq![a] + crate::maps::words_of(rest))[0] == a);
}

/// A line whose first word is two texts around a hyphen gives no start if the first text is no
/// address, else no end if the second is none, else no permissions if nothing follows; otherwise it
/// describes a mapping with these addresses and, as permissions, the word that follows.
pub proof fn line_is_judged_from_its_start(
    a: Seq<char>,
    b: Seq<char>,
    permissions: Seq<char>,
    rest: Seq<char>,
)
    requires
        crate::maps::is_word(a.push('-') + b),
        no_hyphen(a),
        no_hyphen(b),
        crate::maps::is_word(permissions),
    ensures
        ({
            let start = crate::text::number_of(a, 16, 0xffff_ffff_ffff_ffff);
            let end = crate::text::number_of(b, 16, 0xffff_ffff_ffff_ffff);
            let range = (a.push('-') + b).push(' ');
            let bare = crate::maps::mapping_of(range);
            let full = crate::maps::mapping_of(range + (permissions.push(' ') + rest));
            if start is None {
                &&& bare == Err::<MappingView, MappingError>(MappingError::BadStart)
                &&& full == bare
            } else if end is None {
                &&& bare == Err::<MappingView, MappingError>(MappingError::BadEnd)
                &&& full == bare
            } else {
                &&& bare == Err::<MappingView, MappingError>(MappingError::NoPermissions)
                &&& full matches Ok(m) && m.start == start->Some_0 && m.end == end->Some_0
                    && m.permissions == permissions
            }
        }),
{
    let word = a.push('-') + b;
    let behind = permissions.push(' ') + rest;
    lemma_first_word(word, Seq::empty());
    lemma_no_words();
    assert(word.push(' ') + Seq::<char>::empty() =~= word.push(' '));
    lemma_first_word(word, behind);
    lemma_first_word(permissions, rest);
    crate::text::lemma_pieces_around_cut(a, '-', b, Cut::At('-'));
    lemma_one_address(a);
    lemma_one_address(b);
    let range = crate::text::pieces_of(word, Cut::At('-'));
    assert(range =~= seq![a, b]);
    let words = crate::maps::words_of(word.push(' ') + behind);
    assert(words[0] == word);
    assert(words[1] == permissions);
    let few = crate::maps::words_of(word.push(' '));
    assert(few =~= seq![word]);
}

proof fn lemma_no_words()
    ensures
        crate::maps::words_of(Seq::empty()) == Seq::<Seq<char>>::empty(),
{
    crate::text::lemma_one_piece(Seq::empty(), Cut::White);
    reveal_with_fuel(Seq::filter, 2);
    let one = seq![Seq::<char>::empty()];
    assert(one.drop_last() =~= Seq::empty());
    assert(crate::maps::words_of(Seq::empty()) =~= Seq::empty());
}

/// A line that holds nothing, or white space alone, gives no range.
pub proof fn blank_line_lacks_a_range(s: Seq<char>)
    requires
        forall|i: int| 0 <= i < s.len() ==> crate::text::white(#[trigger] s[i]),
    ensures
        crate::maps::words_of(s).len() == 0,
        crate::maps::mapping_of(s) == Err::<MappingView, MappingError>(MappingError::NoRange),
    decreases s.len(),
{
    if s.len() == 0 {
        lemma_no_words();
        assert(s =~= Seq::empty());
    } else {
        let t = s.drop_last();
        assert forall|i: int| 0 <= i < t.len() implies crate::text::white(#[trigger] t[i]) by {
            assert(t[i] == s[i]);
        }
        blank_line_lacks_a_range(t);
        assert(crate::text::white(s[s.len() - 1]));
        crate::text::lemma_nonempty_around_cut(t, s.last(), Seq::empty(), Cut::White);
        lemma_no_words();
        assert(t.push(s.last()) + Seq::<char>::empty() =~= s);
    }
}

/// What follows a second hyphen in the first word changes nothing.
pub proof fn second_hyphen_ends_the_range(
    a: Seq<char>,
    b: Seq<char>,
    more: Seq<char>,
    rest: Seq<char>,
)
    requires
        crate::maps::is_word((a.push('-') + b).push('-') + more),
        no_hyphen(a),
        no_hyphen(b),
    ensures
        crate::maps::mapping_of(((a.push('-') + b).push('-') + more).push(' ') + rest)
            == crate::maps::mapping_of((a.push('-') + b).push(' ') + rest),
{
    let cut = Cut::At('-');
    let short = a.push('-') + b;
    let long = short.push('-') + more;
    assert(crate::maps::is_word(short)) by {
        assert forall|i: int| 0 <= i < short.len() implies !crate::text::white(
            #[trigger] short[i],
        ) by {
            assert(long[i] == short[i]);
        }
    }
    lemma_first_word(long, rest);
    lemma_first_word(short, rest);
    crate::text::lemma_pieces_around_cut(short, '-', more, cut);
    crate::text::lemma_pieces_around_cut(a, '-', b, cut);
    lemma_one_address(a);
    lemma_one_address(b);
    let pieces = crate::text::pieces_of(long, cut);
    assert(crate::text::pieces_of(short, cut) =~= seq![a, b]);
    assert(pieces[0] == a && pieces[1] == b && pieces.len() >= 2);
    let w = crate::maps::words_of(rest);
    assert(forall|i: int| 0 < i < (seq![long] + w).len() ==> (seq![long] + w)[i] == (seq![short]
        + w)[i]);
}

/// A mapping has a path exactly if its line has a sixth word, and that word is the path.
pub proof fn sixth_word_is_the_path(line: Seq<char>)
    ensures
        crate::maps::mapping_of(line) matches Ok(m) ==> {
            &&& m.path is Some <==> crate::maps::words_of(line).len() >= 6
            &&& m.path matches Some(p) ==> p == crate::maps::words_of(line)[5]
        },
{
}

/// What follows the sixth word of a line changes nothing: a path ends at white space.
pub proof fn words_behind_the_path_are_ignored(line: Seq<char>, c: char, more: Seq<char>)
    requires
        crate::text::white(c),
        crate::maps::words_of(line).len() >= 6,
    ensures
        crate::maps::mapping_of(line.push(c) + more) == crate::maps::mapping_of(line),
{
    crate::text::lemma_nonempty_around_cut(line, c, more, Cut::White);
}

/// The lines of a text are those before a line feed and those behind it; a text without a line feed
/// is one line, and an empty one none.
pub proof fn line_feeds_part_the_lines(a: Seq<char>, b: Seq<char>)
    ensures
        crate::maps::lines_of(a.push('\n') + b) == crate::maps::lines_of(a)
            + crate::maps::lines_of(b),
        !a.contains('\n') ==> crate::maps::lines_of(a) == (if a.len() > 0 {
            seq![a]
        } else {
            Seq::empty()
        }),
{
    let cut = Cut::At('\n');
    crate::text::lemma_nonempty_around_cut(a, '\n', b, cut);
    if !a.contains('\n') {
        assert forall|i: int| 0 <= i < a.len() implies !cut.cuts(#[trigger] a[i]) by {
            assert(a.contains(a[i]));
        }
        if a.len() > 0 {
            crate::text::lemma_one_word(a, cut);
        } else {
            crate::text::lemma_one_piece(a, cut);
            reveal_with_fuel(Seq::filter, 2);
            assert(seq![a].drop_last() =~= Seq::empty());
            assert(crate::maps::lines_of(a) =~= Seq::empty());
        }
    }
}

/// Lines describe one list of mappings at most, with as many members as there are lines, and lists
/// of lines that follow each other describe lists that follow each other.
pub proof fn lines_describe_one_list(
    a: Seq<Seq<char>>,
    b: Seq<Seq<char>>,
    x: Seq<MappingView>,
    y: Seq<MappingView>,
)
    ensures
        crate::maps::describes(a, x) && crate::maps::describes(b, y) ==> crate::maps::describes(
            a + b,
            x + y,
        ),
        crate::maps::describes(a, x) && crate::maps::describes(a, y) ==> x == y,
        crate::maps::describes(a, x) ==> x.len() == a.len(),
{
    if crate::maps::describes(a, x) && crate::maps::describes(b, y) {
        assert forall|i: int| 0 <= i < (a + b).len() implies #[trigger] crate::maps::mapping_of(
            (a + b)[i],
        ) == Ok::<MappingView, MappingError>((x + y)[i]) by {
            if i < a.len() {
                assert(crate::maps::mapping_of(a[i]) == Ok::<MappingView, MappingError>(x[i]));
            } else {
                let j = i - a.len();
                assert(crate::maps::mapping_of(b[j]) == Ok::<MappingView, MappingError>(y[j]));
            }
        }
    }
    if crate::maps::describes(a, x) && crate::maps::describes(a, y) {
        assert forall|i: int| 0 <= i < a.len() implies x[i] == y[i] by {
            assert(crate::maps::mapping_of(a[i]) == Ok::<MappingView, MappingError>(x[i]));
            assert(crate::maps::mapping_of(a[i]) == Ok::<MappingView, MappingError>(y[i]));
        }
        assert(x =~= y);
    }
}

/// The line of the kernel describes the one mapping that it was written for.
pub proof fn one_line_describes_its_mapping(line: Seq<char>, m: MappingView)
    ensures
        crate::maps::describes(seq![line], seq![m]) <==> crate::maps::mapping_of(line) == Ok::<
            MappingView,
            MappingError,
        >(m),
{
    if crate::maps::describes(seq![line], seq![m]) {
        assert(crate::maps::mapping_of(seq![line][0]) == Ok::<MappingView, MappingError>(
            seq![m][0],
        ));
    }
}

/// The error of a list of lines is that of its first bad line: good lines before it and any lines
/// behind it change nothing.
pub proof fn first_bad_line_gives_the_error(
    good: Seq<Seq<char>>,
    bad: Seq<char>,
    rest: Seq<Seq<char>>,
    e: MappingError,
)
    requires
        forall|i: int| 0 <= i < good.len() ==> crate::maps::mapping_of(#[trigger] good[i]) is Ok,
        crate::maps::mapping_of(bad) is Err,
    ensures
        crate::maps::first_error(good.push(bad) + rest, e) <==> crate::maps::mapping_of(bad)
            == Err::<MappingView, MappingError>(e),
        !crate::maps::first_error(good, e),
{
    let all = good.push(bad) + rest;
    let k = good.len() as int;
    assert(all[k] == bad);
    assert forall|i: int| 0 <= i < k implies #[trigger] crate::maps::mapping_of(all[i]) is Ok by {
        assert(all[i] == good[i]);
    }
    if crate::maps::mapping_of(bad) == Err::<MappingView, MappingError>(e) {
        assert(crate::maps::mapping_of(all[k]) == Err::<MappingView, MappingError>(e));
    }
    if crate::maps::first_error(all, e) {
        let i = choose|i: int|
            {
                &&& 0 <= i < all.len()
                &&& #[trigger] crate::maps::mapping_of(all[i]) == Err::<MappingView, MappingError>(
                    e,
                )
                &&& forall|j: int| 0 <= j < i ==> #[trigger] crate::maps::mapping_of(all[j]) is Ok
            };
        assert(i >= k);
        if i > k {
            assert(crate::maps::mapping_of(all[k]) is Ok);
        }
    }
    if crate::maps::first_error(good, e) {
        let i = choose|i: int|
            {
                &&& 0 <= i < good.len()
                &&& #[trigger] crate::maps::mapping_of(good[i]) == Err::<MappingView, MappingError>(
                    e,
                )
                &&& forall|j: int| 0 <= j < i ==> #[trigger] crate::maps::mapping_of(good[j]) is Ok
            };
        assert(crate::maps::mapping_of(good[i]) is Ok);
    }
}

/// A mapping counts in the total with the bytes from its start up to, not including, its end.
pub proof fn one_mapping_counts_its_bytes(m: Mapping)
    ensures
        crate::maps::total_of(seq![m]) == m.end - m.start,
        crate::maps::total_of(Seq::empty()) == 0,
        m.ordered() <==> m.end - m.start >= 0,
        crate::maps::all_ordered(seq![m]) <==> m.end - m.start >= 0,
{
    reveal_with_fuel(crate::maps::total_of, 2);
    assert(seq![m].drop_last() =~= Seq::empty());
    assert(seq![m][0] == m);
}

/// A list is in order exactly if each of two lists that make it up is.
pub proof fn lists_are_in_order_together(a: Seq<Mapping>, b: Seq<Mapping>)
    ensures
        crate::maps::all_ordered(a + b) <==> crate::maps::all_ordered(a)
            && crate::maps::all_ordered(b),
        crate::maps::views(a + b) == crate::maps::views(a) + crate::maps::views(b),
{
    if crate::maps::all_ordered(a + b) {
        assert forall|i: int| 0 <= i < a.len() implies (#[trigger] a[i]).ordered() by {
            assert((a + b)[i].ordered());
        }
        assert forall|i: int| 0 <= i < b.len() implies (#[trigger] b[i]).ordered() by {
            assert((a + b)[a.len() + i].ordered());
        }
    }
    assert(crate::maps::views(a + b) =~= crate::maps::views(a) + crate::maps::views(b));
}

// ---------------------------------------------------------------------------------------------
// The reports
// ---------------------------------------------------------------------------------------------

/// The keys of a report.
pub open spec fn keys_of(report: Report) -> Seq<Seq<char>> {
    match report {
        Report::Usage => seq!["VmSize:"@, "VmRSS:"@],
        Report::Rollup => seq![
            "Shared_Clean:"@,
            "Shared_Dirty:"@,
            "Private_Clean:"@,
            "Private_Dirty:"@,
        ],
    }
}

/// A line belongs to a report exactly if it is one of the keys with anything behind it.
pub proof fn reports_go_by_their_keys(report: Report, line: Seq<char>)
    ensures
        report.wants(line) <==> exists|k: int, rest: Seq<char>|
            0 <= k < keys_of(report).len() && line == #[trigger] (keys_of(report)[k] + rest),
{
    if report.wants(line) {
        assert(exists|k: int|
            0 <= k < keys_of(report).len() && (#[trigger] keys_of(report)[k]).is_prefix_of(line))
            by {
            match report {
                Report::Usage => {
                    assert(keys_of(report)[0] == "VmSize:"@);
                    assert(keys_of(report)[1] == "VmRSS:"@);
                },
                Report::Rollup => {
                    assert(keys_of(report)[0] == "Shared_Clean:"@);
                    assert(keys_of(report)[1] == "Shared_Dirty:"@);
                    assert(keys_of(report)[2] == "Private_Clean:"@);
                    assert(keys_of(report)[3] == "Private_Dirty:"@);
                },
            }
        }
        let k = choose|k: int|
            0 <= k < keys_of(report).len() && (#[trigger] keys_of(report)[k]).is_prefix_of(line);
        let key = keys_of(report)[k];
        let rest = line.skip(key.len() as int);
        assert(line =~= key + rest);
    }
    if exists|k: int, rest: Seq<char>|
        0 <= k < keys_of(report).len() && line == #[trigger] (keys_of(report)[k] + rest) {
        let (k, rest) = choose|k: int, rest: Seq<char>|
            0 <= k < keys_of(report).len() && line == #[trigger] (keys_of(report)[k] + rest);
        let key = keys_of(report)[k];
        assert((key + rest).take(key.len() as int) =~= key);
        assert(key.is_prefix_of(line));
    }
}

/// The report of a text is that of what stands before a line feed and that of what stands behind
/// it. A single line is reported behind the prefix if it belongs to the report, and not at all
/// otherwise.
pub proof fn reports_go_line_by_line(report: Report, a: Seq<char>, b: Seq<char>, lead: Seq<char>)
    ensures
        crate::status::report_of(report, a.push('\n') + b, lead) == crate::status::report_of(
            report,
            a,
            lead,
        ) + crate::status::report_of(report, b, lead),
        a.len() > 0 && !a.contains('\n') ==> crate::status::report_of(report, a, lead) == (
        if report.wants(a) {
            seq![lead + a]
        } else {
            Seq::empty()
        }),
{
    let wants = |l: Seq<char>| report.wants(l);
    let behind = |l: Seq<char>| lead + l;
    line_feeds_part_the_lines(a, b);
    let la = crate::maps::lines_of(a);
    let lb = crate::maps::lines_of(b);
    Seq::filter_distributes_over_add(la, lb, wants);
    assert((la.filter(wants) + lb.filter(wants)).map_values(behind) =~= la.filter(wants).map_values(
        behind,
    ) + lb.filter(wants).map_values(behind));
    if a.len() > 0 && !a.contains('\n') {
        reveal_with_fuel(Seq::filter, 2);
        assert(seq![a].drop_last() =~= Seq::empty());
        assert(seq![a].filter(wants) =~= (if report.wants(a) {
            seq![a]
        } else {
            Seq::empty()
        }));
        assert(seq![a].map_values(behind) =~= seq![lead + a]);
        assert(Seq::<Seq<char>>::empty().map_values(behind) =~= Seq::empty());
    }
}

/// A prefix that is given stands before each line as it is; where none is given, nothing does.
pub proof fn prefix_is_written_as_given(prefix: &str)
    ensures
        crate::status::lead(Some(prefix)) == prefix@,
        crate::status::lead(None).len() == 0,
{
}

// ---------------------------------------------------------------------------------------------
// The pagemap
// ---------------------------------------------------------------------------------------------

/// The entry of a page lies behind those of all earlier pages, eight bytes each.
pub proof fn entries_lie_one_behind_the_other(page: nat, inside: nat)
    requires
        inside < 4096,
    ensures
        crate::pagemap::offset_of(4096 * page + inside) == 8 * page,
{
}

/// An entry that is put together from a mark, eight bits of any kind and the number of a page gives
/// back the mark and the number.
pub proof fn entry_gives_back_mark_and_page(present: bool, middle: nat, pfn: nat)
    requires
        middle < 256,
        pfn < 0x80_0000_0000_0000,
    ensures
        crate::pagemap::entry_of(
            (if present {
                0x8000_0000_0000_0000nat
            } else {
                0
            }) + 0x80_0000_0000_0000 * middle + pfn,
        ) == (PagemapEntry { present, pfn: pfn as u64 }),
{
}

/// Each byte of a number weighs 256 times what the byte before it weighs: bytes that follow others
/// count as often as 256 to the number of those.
pub proof fn later_bytes_weigh_more(a: Seq<u8>, b: Seq<u8>)
    ensures
        crate::pagemap::little_endian(a + b) == crate::pagemap::little_endian(a) + pow(256, a.len())
            * crate::pagemap::little_endian(b),
        forall|x: u8| crate::pagemap::little_endian(#[trigger] seq![x]) == x,
    decreases a.len(),
{
    reveal(pow);
    reveal_with_fuel(crate::pagemap::little_endian, 2);
    assert forall|x: u8| crate::pagemap::little_endian(#[trigger] seq![x]) == x by {
        assert(seq![x].drop_first() =~= Seq::empty());
    }
    if a.len() == 0 {
        assert(a + b =~= b);
    } else {
        let t = a.drop_first();
        later_bytes_weigh_more(t, b);
        assert((a + b).drop_first() =~= t + b);
        let p = pow(256, t.len());
        let v = crate::pagemap::little_endian(b) as int;
        assert(pow(256, a.len()) == 256 * p);
        assert((256 * p) * v == 256 * (p * v)) by (nonlinear_arith);
    }
}

} // verus!

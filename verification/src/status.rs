//! The lines of `/proc/self/status` and `/proc/self/smaps_rollup` that tell how much memory a
//! process has reserved and how much of it is really there.

use crate::text::{split_nonempty, starts_with, Cut};
use vstd::prelude::*;

verus! {

/// Which lines of a text are of interest.
#[derive(Clone, Copy, Debug, PartialEq, Eq, Structural)]
pub enum Report {
    /// `VmSize` (reserved) and `VmRSS` (resident) of `/proc/self/status`.
    Usage,
    /// The shared and private, clean and dirty parts of `/proc/self/smaps_rollup`.
    Rollup,
}

impl Report {
    /// Whether a line belongs to the report.
    pub open spec fn wants(self, line: Seq<char>) -> bool {
        match self {
            Report::Usage => "VmSize:"@.is_prefix_of(line) || "VmRSS:"@.is_prefix_of(line),
            Report::Rollup => {
                ||| "Shared_Clean:"@.is_prefix_of(line)
                ||| "Shared_Dirty:"@.is_prefix_of(line)
                ||| "Private_Clean:"@.is_prefix_of(line)
                ||| "Private_Dirty:"@.is_prefix_of(line)
            },
        }
    }

    fn is_wanted(self, line: &str) -> (b: bool)
        ensures
            b == self.wants(line@),
    {
        match self {
            Report::Usage => starts_with(line, "VmSize:") || starts_with(line, "VmRSS:"),
            Report::Rollup => starts_with(line, "Shared_Clean:") || starts_with(
                line,
                "Shared_Dirty:",
            ) || starts_with(line, "Private_Clean:") || starts_with(line, "Private_Dirty:"),
        }
    }
}

/// What is written before each line: nothing where no prefix was given.
pub open spec fn lead(prefix: Option<&str>) -> Seq<char> {
    match prefix {
        Some(p) => p@,
        None => Seq::empty(),
    }
}

/// The lines of a text that belong to a report, in their order, each behind the prefix.
pub open spec fn report_of(report: Report, text: Seq<char>, lead: Seq<char>) -> Seq<Seq<char>> {
    crate::maps::lines_of(text).filter(|l: Seq<char>| report.wants(l)).map_values(
        |l: Seq<char>| lead + l,
    )
}

/// Picks the lines of a report out of a text and writes the prefix before each.
pub fn report_lines(report: Report, text: &str, prefix: Option<&str>) -> (out: Vec<String>)
    ensures
        crate::text::texts(out@) == report_of(report, text@, lead(prefix)),
{
    let lines = split_nonempty(text, Cut::At('\n'));
    let ghost ls = crate::text::texts(lines@);
    let ghost wants = |l: Seq<char>| report.wants(l);
    let ghost behind = |l: Seq<char>| lead(prefix) + l;
    let mut out: Vec<String> = Vec::new();
    let mut i: usize = 0;
    reveal(Seq::filter);
    assert(ls.take(0) =~= Seq::empty());
    assert(crate::text::texts(out@) =~= ls.take(0).filter(wants).map_values(behind));
    while i < lines.len()
        invariant
            i <= lines.len(),
            ls == crate::text::texts(lines@),
            wants == (|l: Seq<char>| report.wants(l)),
            behind == (|l: Seq<char>| lead(prefix) + l),
            crate::text::texts(out@) == ls.take(i as int).filter(wants).map_values(behind),
        decreases lines.len() - i,
    {
        let ghost before = ls.take(i as int).filter(wants);
        let ghost old_out = out@;
        assert(ls.take(i + 1).drop_last() =~= ls.take(i as int));
        assert(ls.take(i + 1).last() == lines@[i as int]@);
        reveal(Seq::filter);
        if report.is_wanted(lines[i].as_str()) {
            let mut line = match prefix {
                Some(p) => p.to_owned(),
                None => String::new(),
            };
            line.append(lines[i].as_str());
            out.push(line);
            assert(ls.take(i + 1).filter(wants) == before.push(lines@[i as int]@));
            assert(crate::text::texts(out@) =~= crate::text::texts(old_out).push(
                behind(lines@[i as int]@),
            ));
            assert(before.push(lines@[i as int]@).map_values(behind) =~= before.map_values(behind).push(
                behind(lines@[i as int]@),
            ));
        }
        i = i + 1;
    }
    assert(ls.take(i as int) =~= ls);
    out
}

} // verus!

use oslearn::status::{report_lines, Report};

const STATUS: &str = "Name:\tmymem\nVmPeak:\t  3000 kB\nVmSize:\t  2988 kB\nVmRSS:\t    64 kB\n\nRssAnon:\t 1 kB\n";

const ROLLUP: &str = "Rss: 9 kB\nPss: 5 kB\nShared_Clean: 1 kB\nShared_Dirty: 2 kB\nPrivate_Clean: 3 kB\nPrivate_Dirty: 4 kB\nReferenced: 9 kB\n";

#[test]
fn usage_picks_size_and_resident_size() {
    assert_eq!(
        report_lines(Report::Usage, STATUS, None),
        vec!["VmSize:\t  2988 kB", "VmRSS:\t    64 kB"]
    );
}

#[test]
fn usage_lines_carry_the_prefix() {
    assert_eq!(
        report_lines(Report::Usage, STATUS, Some("[main thread] ")),
        vec!["[main thread] VmSize:\t  2988 kB", "[main thread] VmRSS:\t    64 kB"]
    );
}

#[test]
fn rollup_picks_the_four_documented_lines() {
    assert_eq!(
        report_lines(Report::Rollup, ROLLUP, Some("> ")),
        vec![
            "> Shared_Clean: 1 kB",
            "> Shared_Dirty: 2 kB",
            "> Private_Clean: 3 kB",
            "> Private_Dirty: 4 kB"
        ]
    );
}

#[test]
fn a_key_counts_only_at_the_start_of_a_line() {
    assert_eq!(
        report_lines(Report::Usage, " VmSize: 1\nxVmRSS: 2\nVmSize 3", None),
        Vec::<String>::new()
    );
    assert_eq!(report_lines(Report::Rollup, "", None), Vec::<String>::new());
}

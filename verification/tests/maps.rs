use oslearn::maps::{
    mapping_line, mapping_lines, read_mappings, total_line, total_mapping_size, Mapping,
    MappingError,
};

const LIBC: &str =
    "76620e828000-76620e9b0000 r-xp 00028000 08:01 6456   /usr/lib/x86_64-linux-gnu/libc.so.6";

#[test]
fn parse_reads_the_columns() {
    let m = Mapping::parse(LIBC);
    assert_eq!(m.start, 0x76620e828000);
    assert_eq!(m.end, 0x76620e9b0000);
    assert_eq!(m.permissions, "r-xp");
    assert_eq!(m.path.as_deref(), Some("/usr/lib/x86_64-linux-gnu/libc.so.6"));
}

#[test]
fn size_is_end_minus_start() {
    let m = Mapping::parse(LIBC);
    assert_eq!(m.size(), 0x188000);
    assert_eq!(m.size() / 1024, 1568);
}

#[test]
fn anonymous_mapping_has_no_path() {
    let m = Mapping::parse("7ffe0000-7fff0000 rw-p 00000000 00:00 0 ");
    assert_eq!(m.path, None);
    let heap = Mapping::parse("5600-5800 rw-p 00000000 00:00 0    [heap]");
    assert_eq!(heap.path.as_deref(), Some("[heap]"));
}

#[test]
fn parse_takes_the_first_word_of_a_path() {
    let m = Mapping::parse("1000-2000 r--p 00000000 08:01 7 /tmp/a (deleted)");
    assert_eq!(m.path.as_deref(), Some("/tmp/a"));
}

#[test]
fn parse_needs_no_more_than_range_and_permissions() {
    let m = Mapping::parse("1000-2000-junk r--p");
    assert_eq!((m.start, m.end), (0x1000, 0x2000));
    assert_eq!(m.path, None);
}

#[test]
fn bad_lines_are_told_apart() {
    assert_eq!(Mapping::try_parse("   "), Err(MappingError::NoRange));
    assert_eq!(Mapping::try_parse("zz-10 r--p"), Err(MappingError::BadStart));
    assert_eq!(Mapping::try_parse("-10 r--p"), Err(MappingError::BadStart));
    assert_eq!(Mapping::try_parse("1000 r--p"), Err(MappingError::NoEnd));
    assert_eq!(Mapping::try_parse("1000- r--p"), Err(MappingError::BadEnd));
    assert_eq!(
        Mapping::try_parse("1000-10000000000000000 r--p"),
        Err(MappingError::BadEnd)
    );
    assert_eq!(Mapping::try_parse("1000-2000"), Err(MappingError::NoPermissions));
    assert!(Mapping::try_parse(LIBC).is_ok());
}

#[test]
fn read_mappings_skips_empty_lines() {
    let text = format!("{}\n\n1000-2000 rw-p 00000000 00:00 0 \n", LIBC);
    let ms = read_mappings(&text).unwrap();
    assert_eq!(ms.len(), 2);
    assert_eq!(ms[0].start, 0x76620e828000);
    assert_eq!(ms[1].end, 0x2000);
    assert_eq!(read_mappings("").unwrap().len(), 0);
}

#[test]
fn read_mappings_reports_the_first_bad_line() {
    let text = "1000-2000 r--p\n1000 r--p\nzz-1 r--p\n";
    assert_eq!(read_mappings(text), Err(MappingError::NoEnd));
    assert_eq!(read_mappings(" \n"), Err(MappingError::NoRange));
}

#[test]
fn total_is_the_sum_of_the_sizes() {
    let ms = read_mappings("1000-3000 r--p\n5000-6000 rw-p\n").unwrap();
    assert_eq!(total_mapping_size(&ms), Some(0x3000));
    assert_eq!(total_mapping_size(&[]), Some(0));
    let reversed = read_mappings("3000-1000 r--p\n").unwrap();
    assert_eq!(total_mapping_size(&reversed), None);
    let huge = read_mappings("0-ffffffffffffffff r--p\n0-1 r--p\n").unwrap();
    assert_eq!(total_mapping_size(&huge), None);
    assert_eq!(total_mapping_size(&huge[..1]), Some(u64::MAX));
}

#[test]
fn total_of_two_lists_is_the_sum_of_the_totals() {
    let a = read_mappings("1000-3000 r--p\n").unwrap();
    let b = read_mappings("5000-6000 rw-p\n").unwrap();
    let both = read_mappings("1000-3000 r--p\n5000-6000 rw-p\n").unwrap();
    assert_eq!(
        total_mapping_size(&both),
        Some(total_mapping_size(&a).unwrap() + total_mapping_size(&b).unwrap())
    );
}

#[test]
fn total_line_counts_in_units_of_1024() {
    assert_eq!(total_line(0x188000), "全マッピングのサイズ合計: 1568kB");
    assert_eq!(total_line(1023), "全マッピングのサイズ合計: 0kB");
}

#[test]
fn mapping_line_shows_the_size() {
    assert_eq!(
        mapping_line(&Mapping::parse(LIBC)),
        "76620e828000-76620e9b0000     1568 KiB r-xp /usr/lib/x86_64-linux-gnu/libc.so.6"
    );
    assert_eq!(
        mapping_line(&Mapping::parse("1000-2000 ---p 00000000 00:00 0")),
        "1000-2000        4 KiB ---p [匿名]"
    );
}

#[test]
fn mapping_lines_keep_the_order() {
    let ms = read_mappings("1000-3000 r--p\n5000-6000 rw-p\n").unwrap();
    assert_eq!(
        mapping_lines(&ms),
        vec![
            "1000-3000        8 KiB r--p [匿名]",
            "5000-6000        4 KiB rw-p [匿名]"
        ]
    );
}

#[test]
fn a_line_of_the_kernel_reads_back() {
    let line = format!("{:x}-{:x} {} {} {} {} {}", 0xab000, 0xcd000, "rwxs", "0", "08:01", 9, "/x");
    let m = Mapping::parse(&line);
    assert_eq!((m.start, m.end), (0xab000, 0xcd000));
    assert_eq!(m.permissions, "rwxs");
    assert_eq!(m.path.as_deref(), Some("/x"));
}

use oslearn::pagemap::{decode_entry, pagemap_entry, pagemap_offset, PagemapEntry};

#[test]
fn entries_lie_in_the_order_of_the_pages() {
    assert_eq!(pagemap_offset(0), 0);
    assert_eq!(pagemap_offset(4095), 0);
    assert_eq!(pagemap_offset(4096), 8);
    assert_eq!(pagemap_offset(3 * 4096 + 17), 24);
    assert_eq!(pagemap_offset(0x7000_1234), 0x70001 * 8);
}

#[test]
fn addresses_of_one_page_share_an_entry() {
    assert_eq!(pagemap_offset(0x5000), pagemap_offset(0x5fff));
    assert_ne!(pagemap_offset(0x5fff), pagemap_offset(0x6000));
}

#[test]
fn bit_63_is_present_and_the_low_55_bits_are_the_page() {
    assert_eq!(decode_entry(0), PagemapEntry { present: false, pfn: 0 });
    assert_eq!(decode_entry(1 << 63), PagemapEntry { present: true, pfn: 0 });
    assert_eq!(
        decode_entry(u64::MAX),
        PagemapEntry { present: true, pfn: (1 << 55) - 1 }
    );
    assert_eq!(decode_entry(0x8180_0000_0012_3456).pfn, 0x12_3456);
}

#[test]
fn bits_between_are_ignored() {
    assert_eq!(decode_entry(0x7f80_0000_0000_0007), decode_entry(7));
}

#[test]
fn bytes_are_little_endian() {
    for raw in [0u64, 1, 0x8102_0304_0506_0708, u64::MAX, 1 << 63] {
        assert_eq!(pagemap_entry(raw.to_le_bytes()), decode_entry(raw));
    }
    assert_eq!(
        pagemap_entry([0x56, 0x34, 0x12, 0, 0, 0, 0x80, 0x81]),
        PagemapEntry { present: true, pfn: 0x12_3456 }
    );
}

//! `/proc/self/pagemap`: what the kernel tells about the physical page behind a virtual page.
//!
//! The file is one long array of 64-bit entries, little-endian, in the order of the virtual pages:
//!
//! ```text
//! [page 0][page 1][page 2][page 3] ...
//! byte: 0       8       16      24
//! ```

use vstd::prelude::*;

verus! {

/// The size of a page in bytes.
pub const PAGE_SIZE: usize = 4096;

/// The size of an entry of the pagemap in bytes.
pub const ENTRY_SIZE: usize = 8;

/// What an entry of the pagemap tells.
#[derive(Clone, Copy, Debug, PartialEq, Eq, Structural)]
pub struct PagemapEntry {
    /// Bit 63: whether a physical page is bound to the virtual page right now.
    pub present: bool,
    /// The low 55 bits: the number of the physical page.
    pub pfn: u64,
}

/// The place in the pagemap of the entry for the page that holds an address.
pub open spec fn offset_of(virt_addr: nat) -> nat {
    virt_addr / 4096 * 8
}

/// Computes where the pagemap holds the entry for the page that holds an address.
pub fn pagemap_offset(virt_addr: usize) -> (offset: u64)
    ensures
        offset == offset_of(virt_addr as nat),
{
    (virt_addr / PAGE_SIZE * ENTRY_SIZE) as u64
}

/// The number that eight bytes hold, the least significant byte first.
pub open spec fn little_endian(b: Seq<u8>) -> nat
    decreases b.len(),
{
    if b.len() == 0 {
        0
    } else {
        b[0] as nat + 256 * little_endian(b.drop_first())
    }
}

/// What a raw entry tells: bit 63 and the low 55 bits; the bits between them are left aside.
pub open spec fn entry_of(raw: nat) -> PagemapEntry {
    PagemapEntry {
        present: raw / 0x8000_0000_0000_0000 % 2 == 1,
        pfn: (raw % 0x80_0000_0000_0000) as u64,
    }
}

/// Takes a raw entry apart.
pub fn decode_entry(raw: u64) -> (e: PagemapEntry)
    ensures
        e == entry_of(raw as nat),
{
    assert((raw >> 63) & 1 == raw / 0x8000_0000_0000_0000 % 2) by (bit_vector);
    assert(raw & 0x7f_ffff_ffff_ffff == raw % 0x80_0000_0000_0000) by (bit_vector);
    assert(1u64 << 55 == 0x80_0000_0000_0000) by (bit_vector);
    PagemapEntry { present: (raw >> 63) & 1 == 1, pfn: raw & ((1u64 << 55) - 1) }
}

/// Takes apart the eight bytes of an entry.
pub fn pagemap_entry(buf: [u8; 8]) -> (e: PagemapEntry)
    ensures
        e == entry_of(little_endian(buf@)),
{
    proof {
        reveal_with_fuel(little_endian, 9);
    }
    let raw: u64 = buf[0] as u64 + 0x100 * (buf[1] as u64) + 0x1_0000 * (buf[2] as u64)
        + 0x100_0000 * (buf[3] as u64) + 0x1_0000_0000 * (buf[4] as u64) + 0x100_0000_0000 * (
    buf[5] as u64) + 0x1_0000_0000_0000 * (buf[6] as u64) + 0x100_0000_0000_0000 * (buf[7] as u64);
    assert(raw == little_endian(buf@));
    decode_entry(raw)
}

/// Two addresses have one entry exactly if they lie in one page, and the entries of neighbouring
/// pages are neighbours.
pub proof fn one_entry_for_each_page(a: nat, b: nat)
    ensures
        offset_of(a) == offset_of(b) <==> a / 4096 == b / 4096,
        offset_of(a + 4096) == offset_of(a) + 8,
        offset_of(a) % 8 == 0,
{
}

/// The bits 55 to 62 of an entry change nothing of what it tells.
pub proof fn middle_bits_are_ignored(a: u64, b: u64)
    requires
        a & 0x807f_ffff_ffff_ffff == b & 0x807f_ffff_ffff_ffff,
    ensures
        entry_of(a as nat) == entry_of(b as nat),
{
    assert(a / 0x8000_0000_0000_0000 % 2 == b / 0x8000_0000_0000_0000 % 2 && a
        % 0x80_0000_0000_0000 == b % 0x80_0000_0000_0000) by (bit_vector)
        requires
            a & 0x807f_ffff_ffff_ffff == b & 0x807f_ffff_ffff_ffff,
    ;
}

} // verus!

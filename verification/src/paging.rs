//! Page tables of the `x86_64` crate, seen as sequences of raw 64-bit entries.
//!
//! Nothing in this file is proved: each function states what the crate's
//! source shows of the call it makes.

use vstd::prelude::*;
use x86_64::structures::paging::{PageTable, PageTableFlags, PhysFrame, Size4KiB};
use x86_64::PhysAddr;

verus! {

/// Entries in one page table.
pub const ENTRY_COUNT: usize = 512;

/// First value that is not a physical address: bits 52 and up must be clear.
pub const PHYS_ADDR_LIMIT: u64 = 0x10_0000_0000_0000;

/// The bits of an entry that hold the address of a table or a 4 KiB frame.
pub const ENTRY_ADDR_MASK: u64 = 0x000f_ffff_ffff_f000;

/// The bits of an entry that hold flags.
pub const ENTRY_FLAGS_MASK: u64 = 0xfff0_0000_0000_0fff;

#[verifier::external_type_specification]
#[verifier::external_body]
pub struct ExPageTable(PageTable);

/// The raw entries of a page table, in index order.
pub uninterp spec fn table_entries(table: PageTable) -> Seq<u64>;

/// `PageTable::zero`: all 512 entries become zero.
#[verifier::external_body]
pub(crate) fn clear_table(table: &mut PageTable)
    ensures
        table_entries(*final(table)) == Seq::new(512, |i: int| 0u64),
{
    table.zero();
}

/// `PageTableEntry::set_addr` on entry `index`: the entry becomes the address
/// or-ed with the flag bits, and no other entry changes. The call panics on an
/// address that is not 4 KiB aligned, and `PhysAddr::new` on one with a bit
/// from 52 up, so both are required.
#[verifier::external_body]
pub(crate) fn set_entry(table: &mut PageTable, index: usize, addr: u64, flags: u64)
    requires
        index < 512,
        addr < PHYS_ADDR_LIMIT,
        addr % 4096 == 0,
    ensures
        table_entries(*final(table)) == table_entries(*old(table)).update(index as int, addr | flags),
{
    table[index].set_addr(PhysAddr::new(addr), PageTableFlags::from_bits_retain(flags));
}

/// `PageTableEntry::addr` of entry `index`: the entry's address bits.
#[verifier::external_body]
pub(crate) fn entry_addr(table: &PageTable, index: usize) -> (addr: u64)
    requires
        index < 512,
    ensures
        addr == table_entries(*table)[index as int] & ENTRY_ADDR_MASK,
{
    table[index].addr().as_u64()
}

/// `PageTableEntry::flags` of entry `index`: the entry's flag bits, which are
/// bits 0 to 11 and 52 to 63.
#[verifier::external_body]
pub(crate) fn entry_flags(table: &PageTable, index: usize) -> (flags: u64)
    requires
        index < 512,
    ensures
        flags == table_entries(*table)[index as int] & ENTRY_FLAGS_MASK,
{
    table[index].flags().bits()
}

/// `PhysFrame::containing_address` for 4 KiB frames: the start of the frame
/// that holds `addr`, which is `addr` with its low twelve bits cleared.
#[verifier::external_body]
pub(crate) fn frame_start(addr: u64) -> (start: u64)
    requires
        addr < PHYS_ADDR_LIMIT,
    ensures
        start == addr - addr % 4096,
{
    PhysFrame::<Size4KiB>::containing_address(PhysAddr::new(addr)).start_address().as_u64()
}

} // verus!

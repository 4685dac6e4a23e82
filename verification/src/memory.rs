//! The kernel's address space: a four-level table that maps the first 4 GiB
//! onto themselves in 2 MiB pages.

use vstd::prelude::*;
use x86_64::structures::paging::PageTable;
use crate::bits::{get_bit, no_bits, ones, set_bit, DirectoryBits};
use crate::paging::{
    clear_table, entry_addr, entry_flags, frame_start, set_entry, table_entries, ENTRY_ADDR_MASK,
    PHYS_ADDR_LIMIT,
};

verus! {

/// Bytes mapped by one page-directory entry.
pub const HUGE_PAGE_SIZE: u64 = 0x20_0000;

/// Frames of `HUGE_PAGE_SIZE` bytes that the kernel's address space maps.
pub const FRAME_COUNT: usize = 2048;

/// The entry is in use.
pub const FLAG_PRESENT: u64 = 0x1;

/// Writes through the entry are allowed.
pub const FLAG_WRITABLE: u64 = 0x2;

/// User-mode accesses through the entry are allowed.
pub const FLAG_USER: u64 = 0x4;

/// Set by the processor when the mapped page is written.
pub const FLAG_DIRTY: u64 = 0x40;

/// The entry maps a page itself instead of naming the next table.
pub const FLAG_HUGE: u64 = 0x80;

/// Instruction fetches through the entry are forbidden.
pub const FLAG_NO_EXECUTE: u64 = 0x8000_0000_0000_0000;

/// Flags of an entry that names the next table: present and writable.
pub const TABLE_FLAGS: u64 = 0x3;

/// Flags of an entry that maps a 2 MiB page: present, writable and huge.
pub const PAGE_FLAGS: u64 = 0x83;

/// Physical addresses of the page-table structures: one top-level table, one
/// directory-pointer table and four page directories that follow each other.
#[derive(Clone, Copy, Debug, PartialEq, Eq, Structural)]
pub struct TableLayout {
    pub pml4: u64,
    pub pdpt: u64,
    pub pd: u64,
}

impl TableLayout {
    /// Address of page directory `d`.
    pub open spec fn directory(self, d: int) -> int {
        self.pd + d * 4096
    }

    /// All addresses are physical addresses, and those that go into table
    /// entries, of the directory-pointer table and of the directories, are
    /// page aligned.
    pub open spec fn linkable(self) -> bool {
        &&& self.pdpt % 4096 == 0
        &&& self.pd % 4096 == 0
        &&& self.pml4 < PHYS_ADDR_LIMIT
        &&& self.pdpt < PHYS_ADDR_LIMIT
        &&& self.pd + 4 * 4096 <= PHYS_ADDR_LIMIT
    }

    /// The tables are linkable, and the top-level table is page aligned too,
    /// so that its address can go into the page-table base register.
    pub open spec fn addressable(self) -> bool {
        &&& self.linkable()
        &&& self.pml4 % 4096 == 0
    }

    /// The tables are addressable and do not overlap.
    pub open spec fn wf(self) -> bool {
        &&& self.addressable()
        &&& self.pml4 != self.pdpt
        &&& !(self.pd <= self.pml4 < self.pd + 4 * 4096)
        &&& !(self.pd <= self.pdpt < self.pd + 4 * 4096)
    }

    /// Checks the layout.
    pub fn is_valid(&self) -> (valid: bool)
        ensures
            valid == self.wf(),
    {
        self.pml4 % 4096 == 0 && self.pdpt % 4096 == 0 && self.pd % 4096 == 0
            && self.pml4 < PHYS_ADDR_LIMIT && self.pdpt < PHYS_ADDR_LIMIT
            && self.pd <= PHYS_ADDR_LIMIT - 4 * 4096 && self.pml4 != self.pdpt
            && !(self.pd <= self.pml4 && self.pml4 < self.pd + 4 * 4096)
            && !(self.pd <= self.pdpt && self.pdpt < self.pd + 4 * 4096)
    }
}

/// The top-level table: entry 0 names the directory-pointer table.
pub open spec fn pml4_image(layout: TableLayout) -> Seq<u64> {
    Seq::new(
        512,
        |i: int|
            if i == 0 {
                layout.pdpt | TABLE_FLAGS
            } else {
                0u64
            },
    )
}

/// The directory-pointer table: entries 0 to 3 name the four directories.
pub open spec fn pdpt_image(layout: TableLayout) -> Seq<u64> {
    Seq::new(
        512,
        |i: int|
            if i < 4 {
                (layout.directory(i) as u64) | TABLE_FLAGS
            } else {
                0u64
            },
    )
}

/// Page directory `d`: entry `j` maps frame `j + 512 * d` onto itself.
pub open spec fn directory_image(d: int) -> Seq<u64> {
    Seq::new(512, |j: int| (((j + d * 512) * 0x20_0000) as u64) | PAGE_FLAGS)
}

/// Fills page directory `d` with its 512 identity mappings.
fn fill_directory(pd: &mut PageTable, d: usize)
    requires
        d < 4,
        table_entries(*old(pd)).len() == 512,
    ensures
        table_entries(*final(pd)) == directory_image(d as int),
{
    let mut j: usize = 0;
    while j < 512
        invariant
            j <= 512,
            d < 4,
            table_entries(*pd).len() == 512,
            forall|k: int| 0 <= k < j ==> table_entries(*pd)[k] == directory_image(d as int)[k],
        decreases 512 - j,
    {
        let addr: u64 = HUGE_PAGE_SIZE * (j as u64 + d as u64 * 512);
        set_entry(pd, j, addr, PAGE_FLAGS);
        j += 1;
    }
    assert(table_entries(*pd) =~= directory_image(d as int));
}

/// Builds the kernel's page tables in the three regions that `layout` gives
/// the addresses of, and returns the start of the 4 KiB frame that holds the
/// top-level table. Loading that address into the page-table base register,
/// with no flags, is the whole switch.
///
/// All tables are cleared first. Then entry 0 of the top-level table names the
/// directory-pointer table, whose entries 0 to 3 name the four directories;
/// entry `j` of directory `d` maps the 2 MiB frame `j + 512 * d` onto itself,
/// present, writable, and closed to user mode.
pub fn construct_kernel_page_table(
    pml4: &mut PageTable,
    pdpt: &mut PageTable,
    pds: &mut [PageTable; 4],
    layout: &TableLayout,
) -> (root: u64)
    requires
        layout.linkable(),
    ensures
        table_entries(*final(pml4)) == pml4_image(*layout),
        table_entries(*final(pdpt)) == pdpt_image(*layout),
        forall|d: int|
            0 <= d < 4 ==> table_entries(#[trigger] final(pds)@[d]) == directory_image(d),
        root == layout.pml4 - layout.pml4 % 4096,
{
    clear_table(pml4);
    clear_table(pdpt);
    let mut d: usize = 0;
    while d < 4
        invariant
            d <= 4,
            forall|k: int| 0 <= k < d ==> table_entries(#[trigger] pds@[k]).len() == 512,
        decreases 4 - d,
    {
        clear_table(&mut pds[d]);
        d += 1;
    }
    set_entry(pml4, 0, layout.pdpt, TABLE_FLAGS);
    assert(table_entries(*pml4) =~= pml4_image(*layout));
    let mut i: usize = 0;
    while i < 4
        invariant
            i <= 4,
            layout.linkable(),
            table_entries(*pdpt).len() == 512,
            forall|k: int| 0 <= k < i ==> table_entries(*pdpt)[k] == pdpt_image(*layout)[k],
            forall|k: int| i <= k < 512 ==> table_entries(*pdpt)[k] == 0u64,
        decreases 4 - i,
    {
        set_entry(pdpt, i, layout.pd + i as u64 * 4096, TABLE_FLAGS);
        i += 1;
    }
    assert(table_entries(*pdpt) =~= pdpt_image(*layout));
    let mut d: usize = 0;
    while d < 4
        invariant
            d <= 4,
            forall|k: int| 0 <= k < 4 ==> table_entries(#[trigger] pds@[k]).len() == 512,
            forall|k: int| 0 <= k < d ==> table_entries(#[trigger] pds@[k]) == directory_image(k),
        decreases 4 - d,
    {
        fill_directory(&mut pds[d], d);
        d += 1;
    }
    frame_start(layout.pml4)
}

/// Sets up the kernel's address space: checks the layout and, if it is valid,
/// builds the page tables. Returns the address to load into the page-table
/// base register, or `None`, with the tables untouched, for a layout that is
/// not valid.
pub fn init(
    pml4: &mut PageTable,
    pdpt: &mut PageTable,
    pds: &mut [PageTable; 4],
    layout: &TableLayout,
) -> (root: Option<u64>)
    ensures
        layout.wf() ==> {
            &&& root == Some(layout.pml4)
            &&& table_entries(*final(pml4)) == pml4_image(*layout)
            &&& table_entries(*final(pdpt)) == pdpt_image(*layout)
            &&& forall|d: int|
                0 <= d < 4 ==> table_entries(#[trigger] final(pds)@[d]) == directory_image(d)
        },
        !layout.wf() ==> {
            &&& root.is_none()
            &&& *final(pml4) == *old(pml4)
            &&& *final(pdpt) == *old(pdpt)
            &&& *final(pds) == *old(pds)
        },
{
    if layout.is_valid() {
        Some(construct_kernel_page_table(pml4, pdpt, pds, layout))
    } else {
        None
    }
}

/// Address of the directory-pointer table, as entry 0 of the top-level table
/// gives it.
pub fn directory_pointer_address(pml4: &PageTable) -> (addr: u64)
    ensures
        addr == table_entries(*pml4)[0] & ENTRY_ADDR_MASK,
{
    entry_addr(pml4, 0)
}

/// Address of the first page directory, as entry 0 of the directory-pointer
/// table gives it. The other three directories follow it.
pub fn directories_address(pdpt: &PageTable) -> (addr: u64)
    ensures
        addr == table_entries(*pdpt)[0] & ENTRY_ADDR_MASK,
{
    entry_addr(pdpt, 0)
}

/// The processor has written to the page that the entry maps.
pub open spec fn dirty(entry: u64) -> bool {
    entry & FLAG_DIRTY == FLAG_DIRTY
}

/// The directory entry that maps frame `f`.
pub open spec fn frame_entry(pds: Seq<PageTable>, f: int) -> u64 {
    table_entries(pds[f / 512])[f % 512]
}

/// A usage map of the 2048 frames of 2 MiB that the kernel's address space
/// covers, one bit each.
///
/// The map is a snapshot of the dirty flags in the page directories: a frame
/// counts as used if the processor has written to it since the tables were
/// built. It records what was touched, not what was handed out.
pub struct PageFrameManager {
    frame_map: [DirectoryBits; 4],
}

/// The set bits of one directory's map are the indices of its dirty entries.
fn directory_usage(pd: &PageTable) -> (map: DirectoryBits)
    ensures
        forall|j: int|
            #[trigger] ones(map).contains(j) <==> 0 <= j < 512 && dirty(table_entries(*pd)[j]),
{
    let mut map = no_bits();
    let mut j: usize = 0;
    while j < 512
        invariant
            j <= 512,
            forall|k: int|
                #[trigger] ones(map).contains(k) <==> 0 <= k < j && dirty(
                    table_entries(*pd)[k],
                ),
        decreases 512 - j,
    {
        let flags = entry_flags(pd, j);
        let ghost entry = table_entries(*pd)[j as int];
        assert((entry & 0xfff0_0000_0000_0fff) & 0x40 == entry & 0x40) by (bit_vector);
        if flags & FLAG_DIRTY == FLAG_DIRTY {
            set_bit(&mut map, j, true);
        }
        j += 1;
    }
    map
}

impl PageFrameManager {
    /// The frames that are marked as used.
    pub closed spec fn view(&self) -> Set<int> {
        Set::new(|f: int| 0 <= f < 2048 && ones(self.frame_map@[f / 512]).contains(f % 512))
    }

    /// Takes the snapshot from the four page directories: frame `f` is marked
    /// if and only if the entry that maps it has its dirty flag set.
    pub fn new(pds: &[PageTable; 4]) -> (manager: Self)
        ensures
            forall|f: int|
                #[trigger] manager@.contains(f) <==> 0 <= f < 2048 && dirty(frame_entry(pds@, f)),
    {
        let manager = PageFrameManager {
            frame_map: [
                directory_usage(&pds[0]),
                directory_usage(&pds[1]),
                directory_usage(&pds[2]),
                directory_usage(&pds[3]),
            ],
        };
        assert forall|f: int|
            #[trigger] manager@.contains(f) <==> 0 <= f < 2048 && dirty(frame_entry(pds@, f)) by {
            if 0 <= f < 2048 {
                assert(0 <= f / 512 < 4 && 0 <= f % 512 < 512);
            }
        }
        manager
    }

    /// Whether frame `frame` is marked as used. No frame from 2048 on is.
    pub fn is_used(&self, frame: usize) -> (used: bool)
        ensures
            used == self@.contains(frame as int),
    {
        if frame < FRAME_COUNT {
            get_bit(&self.frame_map[frame / 512], frame % 512)
        } else {
            false
        }
    }
}

} // verus!

//! How the processor reads a four-level page table, and what it makes of the
//! kernel's tables.

use vstd::prelude::*;
use crate::memory::{
    directory_image, dirty, pdpt_image, pml4_image, TableLayout, FLAG_HUGE, FLAG_NO_EXECUTE,
    FLAG_PRESENT, FLAG_USER, FLAG_WRITABLE, PAGE_FLAGS, TABLE_FLAGS,
};
use crate::paging::ENTRY_ADDR_MASK;

verus! {

/// The bits of a directory entry that hold the start of a 2 MiB page.
pub const PAGE_2M_MASK: u64 = 0x000f_ffff_ffe0_0000;

/// The bits of a directory-pointer entry that hold the start of a 1 GiB page.
pub const PAGE_1G_MASK: u64 = 0x000f_ffff_c000_0000;

/// Physical memory as far as the table walk reads it: the page tables, each
/// under its physical address.
pub type TableMemory = Map<int, Seq<u64>>;

/// What a virtual address translates to.
pub struct Translation {
    /// The physical address.
    pub phys: int,
    /// Writes are allowed at every level of the walk.
    pub writable: bool,
    /// User mode is allowed at every level of the walk.
    pub user: bool,
    /// Instruction fetches are allowed at every level of the walk.
    pub executable: bool,
    /// Size in bytes of the page that the address lies in.
    pub page_size: int,
}

pub open spec fn present(entry: u64) -> bool {
    entry & FLAG_PRESENT == FLAG_PRESENT
}

pub open spec fn writable(entry: u64) -> bool {
    entry & FLAG_WRITABLE == FLAG_WRITABLE
}

pub open spec fn user(entry: u64) -> bool {
    entry & FLAG_USER == FLAG_USER
}

pub open spec fn executable(entry: u64) -> bool {
    entry & FLAG_NO_EXECUTE == 0
}

pub open spec fn huge(entry: u64) -> bool {
    entry & FLAG_HUGE == FLAG_HUGE
}

/// Address of the table that a non-leaf entry names.
pub open spec fn next_table(entry: u64) -> int {
    (entry & ENTRY_ADDR_MASK) as int
}

/// Index into the top-level table: bits 39 to 47 of the address.
pub open spec fn pml4_index(va: int) -> int {
    (va / 0x80_0000_0000) % 512
}

/// Index into the directory-pointer table: bits 30 to 38.
pub open spec fn pdpt_index(va: int) -> int {
    (va / 0x4000_0000) % 512
}

/// Index into the page directory: bits 21 to 29.
pub open spec fn pd_index(va: int) -> int {
    (va / 0x20_0000) % 512
}

/// Index into the page table: bits 12 to 20.
pub open spec fn pt_index(va: int) -> int {
    (va / 0x1000) % 512
}

/// Bits 47 to 63 of a 64-bit address are all equal.
pub open spec fn canonical(va: int) -> bool {
    0 <= va < 0x8000_0000_0000 || 0xffff_8000_0000_0000 <= va <= u64::MAX
}

/// The walk from the directory entry `e2` on, for an address that came
/// through `e4` and `e3`.
pub open spec fn translate_directory(mem: TableMemory, e4: u64, e3: u64, e2: u64, va: int) -> Option<
    Translation,
> {
    if !present(e2) {
        None
    } else if huge(e2) {
        Some(
            Translation {
                phys: (e2 & PAGE_2M_MASK) + va % 0x20_0000,
                writable: writable(e4) && writable(e3) && writable(e2),
                user: user(e4) && user(e3) && user(e2),
                executable: executable(e4) && executable(e3) && executable(e2),
                page_size: 0x20_0000,
            },
        )
    } else if !mem.contains_key(next_table(e2)) {
        None
    } else {
        let e1 = mem[next_table(e2)][pt_index(va)];
        if !present(e1) {
            None
        } else {
            Some(
                Translation {
                    phys: (e1 & ENTRY_ADDR_MASK) + va % 0x1000,
                    writable: writable(e4) && writable(e3) && writable(e2) && writable(e1),
                    user: user(e4) && user(e3) && user(e2) && user(e1),
                    executable: executable(e4) && executable(e3) && executable(e2) && executable(
                        e1,
                    ),
                    page_size: 0x1000,
                },
            )
        }
    }
}

/// The table walk: what the virtual address `va` translates to when the
/// top-level table is the one at `root`. `None` is a fault.
pub open spec fn translate(mem: TableMemory, root: int, va: int) -> Option<Translation> {
    if !canonical(va) || !mem.contains_key(root) {
        None
    } else {
        let e4 = mem[root][pml4_index(va)];
        if !present(e4) || !mem.contains_key(next_table(e4)) {
            None
        } else {
            let e3 = mem[next_table(e4)][pdpt_index(va)];
            if !present(e3) {
                None
            } else if huge(e3) {
                Some(
                    Translation {
                        phys: (e3 & PAGE_1G_MASK) + va % 0x4000_0000,
                        writable: writable(e4) && writable(e3),
                        user: user(e4) && user(e3),
                        executable: executable(e4) && executable(e3),
                        page_size: 0x4000_0000,
                    },
                )
            } else if !mem.contains_key(next_table(e3)) {
                None
            } else {
                translate_directory(mem, e4, e3, mem[next_table(e3)][pd_index(va)], va)
            }
        }
    }
}

/// The kernel's page tables lie in `mem` at the addresses that `layout`
/// gives: this is what memory looks like once they have been built there.
pub open spec fn holds_kernel_tables(mem: TableMemory, layout: TableLayout) -> bool {
    &&& mem.contains_key(layout.pml4 as int)
    &&& mem[layout.pml4 as int] == pml4_image(layout)
    &&& mem.contains_key(layout.pdpt as int)
    &&& mem[layout.pdpt as int] == pdpt_image(layout)
    &&& forall|d: int|
        0 <= d < 4 ==> mem.contains_key(#[trigger] layout.directory(d)) && mem[layout.directory(d)]
            == directory_image(d)
}

/// Memory that holds the kernel's page tables and nothing else.
pub open spec fn kernel_tables(layout: TableLayout) -> TableMemory {
    Map::new(
        |a: int|
            a == layout.pml4 || a == layout.pdpt || exists|d: int|
                0 <= d < 4 && a == #[trigger] layout.directory(d),
        |a: int|
            if a == layout.pml4 {
                pml4_image(layout)
            } else if a == layout.pdpt {
                pdpt_image(layout)
            } else {
                directory_image((a - layout.pd) / 4096)
            },
    )
}

/// For a layout whose tables do not overlap there is memory that holds them.
pub proof fn lemma_kernel_tables_fit(layout: TableLayout)
    requires
        layout.wf(),
    ensures
        holds_kernel_tables(kernel_tables(layout), layout),
{
    let mem = kernel_tables(layout);
    assert forall|d: int| 0 <= d < 4 implies mem.contains_key(#[trigger] layout.directory(d)) && mem[layout.directory(
        d,
    )] == directory_image(d) by {
        assert((layout.directory(d) - layout.pd) / 4096 == d);
    }
}

/// What the flag and address bits of an entry that names a table are.
proof fn lemma_table_entry(addr: u64)
    requires
        addr % 4096 == 0,
        addr < 0x10_0000_0000_0000,
    ensures
        present(addr | TABLE_FLAGS),
        writable(addr | TABLE_FLAGS),
        !user(addr | TABLE_FLAGS),
        executable(addr | TABLE_FLAGS),
        !huge(addr | TABLE_FLAGS),
        next_table(addr | TABLE_FLAGS) == addr,
{
    assert((addr | 3) & 1 == 1 && (addr | 3) & 2 == 2 && (addr | 3) & 4 == 0 && (addr | 3) & 0x80
        == 0 && (addr | 3) & 0x000f_ffff_ffff_f000 == addr && (addr | 3) & 0x8000_0000_0000_0000
        == 0) by (bit_vector)
        requires
            addr % 4096 == 0,
            addr < 0x10_0000_0000_0000,
    ;
}

/// What the flag and address bits of an entry that maps a 2 MiB page are.
proof fn lemma_page_entry(addr: u64)
    requires
        addr % 0x20_0000 == 0,
        addr < 0x10_0000_0000_0000,
    ensures
        present(addr | PAGE_FLAGS),
        writable(addr | PAGE_FLAGS),
        !user(addr | PAGE_FLAGS),
        executable(addr | PAGE_FLAGS),
        huge(addr | PAGE_FLAGS),
        (addr | PAGE_FLAGS) & PAGE_2M_MASK == addr,
{
    assert((addr | 0x83) & 1 == 1 && (addr | 0x83) & 2 == 2 && (addr | 0x83) & 4 == 0 && (addr
        | 0x83) & 0x80 == 0x80 && (addr | 0x83) & 0x000f_ffff_ffe0_0000 == addr && (addr | 0x83)
        & 0x8000_0000_0000_0000 == 0) by (bit_vector)
        requires
            addr % 0x20_0000 == 0,
            addr < 0x10_0000_0000_0000,
    ;
}

/// An entry that is zero is not present.
proof fn lemma_zero_entry()
    ensures
        !present(0u64),
{
    assert(0u64 & 1 != 1) by (bit_vector);
}

/// The kernel's address space is the identity on the first 4 GiB and nothing
/// beyond: with the kernel's tables in memory, every address below 4 GiB
/// translates to itself, in a 2 MiB page that may be written and executed
/// and is closed to user mode, and every other address faults.
pub proof fn lemma_identity_map(mem: TableMemory, layout: TableLayout, va: int)
    requires
        layout.addressable(),
        holds_kernel_tables(mem, layout),
    ensures
        0 <= va < 0x1_0000_0000 ==> translate(mem, layout.pml4 as int, va) == Some(
            Translation {
                phys: va,
                writable: true,
                user: false,
                executable: true,
                page_size: 0x20_0000,
            },
        ),
        !(0 <= va < 0x1_0000_0000) ==> translate(mem, layout.pml4 as int, va) is None,
{
    lemma_zero_entry();
    lemma_table_entry(layout.pdpt);
    if canonical(va) {
        let e4 = mem[layout.pml4 as int][pml4_index(va)];
        assert(e4 == pml4_image(layout)[pml4_index(va)]);
        if 0 <= va < 0x80_0000_0000 {
            assert(pml4_index(va) == 0);
            assert(e4 == layout.pdpt | TABLE_FLAGS);
            let d = pdpt_index(va);
            let e3 = mem[layout.pdpt as int][d];
            assert(e3 == pdpt_image(layout)[d]);
            if va < 0x1_0000_0000 {
                assert(0 <= d < 4);
                let dir = layout.directory(d) as u64;
                lemma_table_entry(dir);
                assert(e3 == dir | TABLE_FLAGS);
                assert(mem.contains_key(layout.directory(d)));
                let j = pd_index(va);
                let e2 = mem[layout.directory(d)][j];
                assert(e2 == directory_image(d)[j]);
                let frame = ((j + d * 512) * 0x20_0000) as u64;
                assert(j + d * 512 == va / 0x20_0000);
                lemma_page_entry(frame);
                assert(e2 == frame | PAGE_FLAGS);
                assert(frame + va % 0x20_0000 == va);
            } else {
                assert(d >= 4);
                assert(e3 == 0u64);
            }
        } else {
            assert(pml4_index(va) != 0);
            assert(e4 == 0u64);
        }
    }
}

/// Frame by frame: each of the 2048 frames of 2 MiB below 4 GiB is mapped
/// onto itself by the directory entry that belongs to it, with exactly the
/// flags present, writable and huge; no frame from 2048 on is mapped.
pub proof fn lemma_identity_frames(mem: TableMemory, layout: TableLayout, f: int)
    requires
        layout.addressable(),
        holds_kernel_tables(mem, layout),
        0 <= f,
    ensures
        f < 2048 ==> directory_image(f / 512)[f % 512] == ((f * 0x20_0000) as u64) | PAGE_FLAGS,
        f < 2048 ==> translate(mem, layout.pml4 as int, f * 0x20_0000) == Some(
            Translation {
                phys: f * 0x20_0000,
                writable: true,
                user: false,
                executable: true,
                page_size: 0x20_0000,
            },
        ),
        f >= 2048 ==> translate(mem, layout.pml4 as int, f * 0x20_0000) is None,
{
    lemma_identity_map(mem, layout, f * 0x20_0000);
    if f < 2048 {
        assert(f % 512 + (f / 512) * 512 == f);
    }
}

/// The tables can be found again from the root: entry 0 of the top-level
/// table gives the address of the directory-pointer table, and entry 0 of
/// that one the address of the first directory.
pub proof fn lemma_tables_found_from_root(layout: TableLayout)
    requires
        layout.addressable(),
    ensures
        pml4_image(layout)[0] & ENTRY_ADDR_MASK == layout.pdpt,
        pdpt_image(layout)[0] & ENTRY_ADDR_MASK == layout.pd,
{
    lemma_table_entry(layout.pdpt);
    lemma_table_entry(layout.pd);
    assert(layout.directory(0) as u64 == layout.pd);
}

/// No entry of a freshly built directory has its dirty flag set: a frame map
/// taken before the processor has written anything marks no frame.
pub proof fn lemma_fresh_directories_clean(d: int, j: int)
    requires
        0 <= d < 4,
        0 <= j < 512,
    ensures
        !dirty(directory_image(d)[j]),
{
    let frame = ((j + d * 512) * 0x20_0000) as u64;
    assert((frame | 0x83) & 0x40 != 0x40) by (bit_vector)
        requires
            frame % 0x20_0000 == 0,
    ;
}

} // verus!

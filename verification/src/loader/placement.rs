//! The single physical allocation that covers every loadable segment.

use vstd::prelude::*;

verus! {

/// Size of a firmware page in bytes.
pub const EFI_PAGE_SIZE: u64 = 0x1000;

/// Program-header type of a segment that is loaded into memory.
pub const PT_LOAD: u32 = 1;

/// Why the loader gives up. Every one of these is fatal: a half-placed kernel
/// cannot be run, so there is no retry and no fallback.
#[derive(Clone, Copy, Debug, PartialEq, Eq, Structural)]
pub enum LoaderError {
    /// The serial console protocol could not be located.
    SerialUnavailable,
    /// The boot volume could not be opened.
    VolumeUnavailable,
    /// No kernel file under the expected name.
    KernelNotFound,
    /// The kernel path names something that is not a regular file.
    NotRegularFile,
    /// Fewer or more bytes were read than the file is long.
    ReadSizeMismatch,
    /// The image is not a well-formed ELF file.
    MalformedElf,
    /// A loadable segment ends beyond the 64-bit address space.
    AddressOverflow,
    /// A loadable segment's file range lies outside the image.
    SegmentOutsideFile,
    /// A loadable segment has more file bytes than memory bytes.
    FileSizeExceedsMemSize,
    /// A loadable segment lies outside the memory that was allocated.
    SegmentOutsideRegion,
    /// The firmware refused the pages at the fixed address.
    AllocationFailed,
    /// The firmware memory map could not be read.
    MemoryMapUnavailable,
}

/// The fields of an ELF program header that placement reads.
#[derive(Clone, Copy, Debug, PartialEq, Eq, Structural)]
pub struct ProgramHeader {
    pub p_type: u32,
    pub p_offset: u64,
    pub p_vaddr: u64,
    pub p_filesz: u64,
    pub p_memsz: u64,
}

/// A run of whole pages at a fixed physical address.
#[derive(Clone, Copy, Debug, PartialEq, Eq, Structural)]
pub struct AllocRegion {
    pub base: u64,
    pub page_count: u64,
}

impl ProgramHeader {
    pub fn new(p_type: u32, p_offset: u64, p_vaddr: u64, p_filesz: u64, p_memsz: u64) -> (ph: Self)
        ensures
            ph == (ProgramHeader { p_type, p_offset, p_vaddr, p_filesz, p_memsz }),
    {
        ProgramHeader { p_type, p_offset, p_vaddr, p_filesz, p_memsz }
    }

    /// Whether the segment is loaded into memory.
    pub open spec fn loadable(self) -> bool {
        self.p_type == PT_LOAD
    }

    /// The segment's address rounded down to a page boundary.
    pub open spec fn start(self) -> int {
        self.p_vaddr - self.p_vaddr % 0x1000
    }

    /// Pages needed from `start()` to hold `p_memsz` bytes at `p_vaddr`.
    pub open spec fn pages(self) -> int {
        (self.p_memsz + self.p_vaddr % 0x1000 + 0xfff) / 0x1000
    }

    /// First address past the segment's last page.
    pub open spec fn end(self) -> int {
        self.start() + self.pages() * 0x1000
    }
}

/// The first loadable header of `phdrs`, if there is one.
pub open spec fn first_loadable(phdrs: Seq<ProgramHeader>) -> Option<ProgramHeader>
    decreases phdrs.len(),
{
    if phdrs.len() == 0 {
        None
    } else {
        match first_loadable(phdrs.drop_last()) {
            Some(ph) => Some(ph),
            None => if phdrs.last().loadable() {
                Some(phdrs.last())
            } else {
                None
            },
        }
    }
}

/// The largest `end()` among the loadable headers of `phdrs`, 0 if none.
pub open spec fn covered_end(phdrs: Seq<ProgramHeader>) -> int
    decreases phdrs.len(),
{
    if phdrs.len() == 0 {
        0
    } else {
        let before = covered_end(phdrs.drop_last());
        if phdrs.last().loadable() && phdrs.last().end() > before {
            phdrs.last().end()
        } else {
            before
        }
    }
}

/// Where the covering allocation starts: the page of the first loadable
/// segment; 0 if nothing is loadable.
pub open spec fn region_base(phdrs: Seq<ProgramHeader>) -> int {
    match first_loadable(phdrs) {
        Some(ph) => ph.start(),
        None => 0,
    }
}

/// How many pages the covering allocation has: from `region_base` to the
/// furthest segment end.
pub open spec fn region_pages(phdrs: Seq<ProgramHeader>) -> int {
    (covered_end(phdrs) - region_base(phdrs)) / 0x1000
}

/// Every loadable segment ends inside the 64-bit address space.
pub open spec fn addressable(phdrs: Seq<ProgramHeader>) -> bool {
    forall|i: int|
        0 <= i < phdrs.len() && #[trigger] phdrs[i].loadable() ==> phdrs[i].end() <= u64::MAX
}

/// The covered end is the end of some loadable header, it is no less than any
/// of them, and it is a whole number of pages above the base, which is the
/// page of a loadable header too. Without a first loadable header, none is
/// loadable.
pub proof fn lemma_covered_end(phdrs: Seq<ProgramHeader>)
    ensures
        forall|i: int|
            0 <= i < phdrs.len() && #[trigger] phdrs[i].loadable() ==> phdrs[i].end()
                <= covered_end(phdrs),
        first_loadable(phdrs) is None ==> covered_end(phdrs) == 0,
        first_loadable(phdrs) is None ==> forall|i: int|
            0 <= i < phdrs.len() ==> !#[trigger] phdrs[i].loadable(),
        first_loadable(phdrs) is Some ==> exists|i: int|
            0 <= i < phdrs.len() && #[trigger] phdrs[i].loadable() && phdrs[i].end()
                == covered_end(phdrs),
        first_loadable(phdrs) matches Some(ph) ==> exists|i: int|
            0 <= i < phdrs.len() && #[trigger] phdrs[i].loadable() && phdrs[i] == ph,
        region_base(phdrs) <= covered_end(phdrs),
        region_base(phdrs) % 0x1000 == 0,
        covered_end(phdrs) % 0x1000 == 0,
        covered_end(phdrs) == region_base(phdrs) + region_pages(phdrs) * 0x1000,
    decreases phdrs.len(),
{
    if phdrs.len() > 0 {
        let init = phdrs.drop_last();
        lemma_covered_end(init);
        assert forall|i: int|
            0 <= i < phdrs.len() && #[trigger] phdrs[i].loadable() implies phdrs[i].end()
            <= covered_end(phdrs) by {
            if i < init.len() {
                assert(init[i] == phdrs[i]);
            }
        }
        if first_loadable(phdrs) is None {
            assert forall|i: int| 0 <= i < phdrs.len() implies !#[trigger] phdrs[i].loadable() by {
                if i < init.len() {
                    assert(init[i] == phdrs[i]);
                }
            }
        }
        if first_loadable(init) is Some {
            let i = choose|i: int|
                0 <= i < init.len() && #[trigger] init[i].loadable() && init[i].end()
                    == covered_end(init);
            assert(phdrs[i] == init[i]);
            let k = choose|k: int|
                0 <= k < init.len() && #[trigger] init[k].loadable() && init[k]
                    == first_loadable(init).unwrap();
            assert(phdrs[k] == init[k]);
            if phdrs.last().loadable() && phdrs.last().end() > covered_end(init) {
                assert(phdrs[phdrs.len() - 1].loadable());
            }
        } else if phdrs.last().loadable() {
            assert(phdrs[phdrs.len() - 1].loadable());
        }
    }
}

/// The covering allocation reaches to the end of each loadable segment, and
/// starts no later than the first one.
pub proof fn lemma_region_covers(phdrs: Seq<ProgramHeader>, k: int)
    requires
        0 <= k < phdrs.len(),
        phdrs[k].loadable(),
    ensures
        first_loadable(phdrs) matches Some(first) && region_base(phdrs) <= first.p_vaddr,
        phdrs[k].p_vaddr + phdrs[k].p_memsz <= region_base(phdrs) + region_pages(phdrs) * 0x1000,
{
    lemma_covered_end(phdrs);
}

/// Computes the single allocation that covers all loadable segments.
///
/// The base is the page of the first loadable segment; each later segment
/// whose page-rounded end lies beyond the covered end extends the page count.
/// Segments are taken in the order given: one that starts below the base does
/// not move the base. Without loadable segments the region is empty at 0.
pub fn calc_alloc_region(phdrs: &Vec<ProgramHeader>) -> (r: Result<AllocRegion, LoaderError>)
    ensures
        addressable(phdrs@) ==> r == Ok::<AllocRegion, LoaderError>(
            AllocRegion { base: region_base(phdrs@) as u64, page_count: region_pages(phdrs@) as u64 },
        ),
        addressable(phdrs@) ==> region_base(phdrs@) + region_pages(phdrs@) * 0x1000 <= u64::MAX,
        !addressable(phdrs@) ==> r == Err::<AllocRegion, LoaderError>(LoaderError::AddressOverflow),
{
    let mut found = false;
    let mut base: u64 = 0;
    let mut end: u64 = 0;
    let mut i: usize = 0;
    while i < phdrs.len()
        invariant
            i <= phdrs.len(),
            addressable(phdrs@.take(i as int)),
            found == (first_loadable(phdrs@.take(i as int)) is Some),
            base == region_base(phdrs@.take(i as int)),
            end == covered_end(phdrs@.take(i as int)),
        decreases phdrs.len() - i,
    {
        let ph = phdrs[i];
        proof {
            assert(phdrs@.take(i + 1).drop_last() == phdrs@.take(i as int));
            assert(phdrs@.take(i + 1).last() == ph);
        }
        if ph.p_type == PT_LOAD {
            let rem: u64 = ph.p_vaddr % EFI_PAGE_SIZE;
            let start: u64 = ph.p_vaddr - rem;
            let pages: u128 = (ph.p_memsz as u128 + rem as u128 + 0xfff) / 0x1000;
            let seg_end: u128 = start as u128 + pages * 0x1000;
            if seg_end > u64::MAX as u128 {
                proof {
                    assert(phdrs@[i as int].loadable());
                }
                return Err(LoaderError::AddressOverflow);
            }
            if !found {
                found = true;
                base = start;
            }
            if seg_end > end as u128 {
                end = seg_end as u64;
            }
        }
        proof {
            let taken = phdrs@.take(i + 1);
            assert forall|k: int|
                0 <= k < taken.len() && #[trigger] taken[k].loadable() implies taken[k].end()
                <= u64::MAX by {
                if k < i {
                    assert(phdrs@.take(i as int)[k] == taken[k]);
                }
            }
        }
        i += 1;
    }
    proof {
        assert(phdrs@.take(i as int) == phdrs@);
        lemma_covered_end(phdrs@);
    }
    Ok(AllocRegion { base, page_count: (end - base) / EFI_PAGE_SIZE })
}

/// For an image with one segment, and that one loadable, the allocation spans
/// exactly that segment: from the page it starts in, for as many pages as
/// its bytes reach into.
pub proof fn lemma_single_segment(ph: ProgramHeader)
    requires
        ph.loadable(),
    ensures
        region_base(seq![ph]) == ph.start(),
        region_pages(seq![ph]) == ph.pages(),
        ph.start() <= ph.p_vaddr < ph.start() + 0x1000,
        ph.p_vaddr + ph.p_memsz <= ph.end() < ph.p_vaddr + ph.p_memsz + 0x1000,
{
    assert(seq![ph].drop_last().len() == 0);
    assert(seq![ph].last() == ph);
    lemma_covered_end(seq![ph]);
}

/// Appending a header never moves the base of a region that already has a
/// loadable segment, and never makes the region end earlier or hold fewer
/// pages.
pub proof fn lemma_region_only_extends(phdrs: Seq<ProgramHeader>, ph: ProgramHeader)
    ensures
        first_loadable(phdrs) is Some ==> region_base(phdrs.push(ph)) == region_base(phdrs),
        covered_end(phdrs.push(ph)) >= covered_end(phdrs),
        first_loadable(phdrs) is Some ==> region_pages(phdrs.push(ph)) >= region_pages(phdrs),
        first_loadable(phdrs) is Some ==> first_loadable(phdrs.push(ph)) == first_loadable(phdrs),
{
    assert(phdrs.push(ph).drop_last() == phdrs);
    lemma_covered_end(phdrs);
    lemma_covered_end(phdrs.push(ph));
}

} // verus!

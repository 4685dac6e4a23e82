//! Filling a segment's memory from the image file.

use vstd::prelude::*;
use crate::loader::placement::{
    lemma_region_covers, region_base, region_pages, LoaderError, ProgramHeader, PT_LOAD,
};

verus! {

/// The segment's file bytes lie inside a file of `file_len` bytes.
pub open spec fn inside_file(ph: ProgramHeader, file_len: int) -> bool {
    ph.p_offset + ph.p_filesz <= file_len
}

/// What a segment's memory holds once it is loaded: the `p_filesz` bytes found
/// at `p_offset` in the file, then zeros up to `p_memsz`.
pub open spec fn segment_memory(file: Seq<u8>, ph: ProgramHeader) -> Seq<u8> {
    Seq::new(
        ph.p_memsz as nat,
        |i: int|
            if i < ph.p_filesz {
                file[ph.p_offset + i]
            } else {
                0u8
            },
    )
}

/// What is wrong with a segment by itself, if anything: its file bytes must
/// fit into its memory, and must exist in the file.
pub open spec fn segment_fault(file_len: int, ph: ProgramHeader) -> Option<LoaderError> {
    if ph.p_filesz > ph.p_memsz {
        Some(LoaderError::FileSizeExceedsMemSize)
    } else if !inside_file(ph, file_len) {
        Some(LoaderError::SegmentOutsideFile)
    } else {
        None
    }
}

/// The file part of a loaded segment equals the file's bytes at `p_offset`,
/// and everything after it is zero.
pub proof fn lemma_segment_memory(file: Seq<u8>, ph: ProgramHeader)
    requires
        segment_fault(file.len() as int, ph) is None,
    ensures
        segment_memory(file, ph).len() == ph.p_memsz,
        segment_memory(file, ph).subrange(0, ph.p_filesz as int) == file.subrange(
            ph.p_offset as int,
            ph.p_offset + ph.p_filesz,
        ),
        forall|i: int| ph.p_filesz <= i < ph.p_memsz ==> segment_memory(file, ph)[i] == 0u8,
{
    assert(segment_memory(file, ph).subrange(0, ph.p_filesz as int) =~= file.subrange(
        ph.p_offset as int,
        ph.p_offset + ph.p_filesz,
    ));
}

/// The error that stops a segment from being placed in a region of
/// `region_len` bytes at address `base`, if any: the segment must be sound by
/// itself, and must lie inside the region.
pub open spec fn placement_fault(region_len: int, base: int, file_len: int, ph: ProgramHeader) -> Option<
    LoaderError,
> {
    if segment_fault(file_len, ph) is Some {
        segment_fault(file_len, ph)
    } else if ph.p_vaddr < base || ph.p_vaddr - base + ph.p_memsz > region_len {
        Some(LoaderError::SegmentOutsideRegion)
    } else {
        None
    }
}

/// The region's bytes once the segment `ph` is placed in it: the segment's
/// memory at its address, and what was there before everywhere else.
pub open spec fn place_one(region: Seq<u8>, base: int, file: Seq<u8>, ph: ProgramHeader) -> Seq<u8> {
    Seq::new(
        region.len(),
        |i: int|
            if ph.p_vaddr - base <= i < ph.p_vaddr - base + ph.p_memsz {
                segment_memory(file, ph)[i - (ph.p_vaddr - base)]
            } else {
                region[i]
            },
    )
}

/// The region's bytes once the loadable segments of `phdrs` are placed in
/// it, one after the other, and the error that ended it, if any: the first
/// segment that cannot be placed stops the work, and the segments before it
/// stay where they were put.
pub open spec fn place_all(region: Seq<u8>, base: int, file: Seq<u8>, phdrs: Seq<ProgramHeader>) -> (
    Seq<u8>,
    Option<LoaderError>,
)
    decreases phdrs.len(),
{
    if phdrs.len() == 0 {
        (region, None)
    } else {
        let before = place_all(region, base, file, phdrs.drop_last());
        let ph = phdrs.last();
        if before.1 is Some || !ph.loadable() {
            before
        } else if placement_fault(region.len() as int, base, file.len() as int, ph) is Some {
            (before.0, placement_fault(region.len() as int, base, file.len() as int, ph))
        } else {
            (place_one(before.0, base, file, ph), None)
        }
    }
}

/// The allocation that covers all loadable segments has room for each of
/// them that does not start below its base: such a segment is refused only
/// for what is wrong with the segment itself.
pub proof fn lemma_region_takes_segment(phdrs: Seq<ProgramHeader>, k: int, file_len: int)
    requires
        0 <= k < phdrs.len(),
        phdrs[k].loadable(),
        phdrs[k].p_vaddr >= region_base(phdrs),
    ensures
        placement_fault(region_pages(phdrs) * 0x1000, region_base(phdrs), file_len, phdrs[k]) == segment_fault(
            file_len,
            phdrs[k],
        ),
{
    lemma_region_covers(phdrs, k);
}

/// Two segments share no byte of memory.
pub open spec fn apart(a: ProgramHeader, b: ProgramHeader) -> bool {
    a.p_vaddr + a.p_memsz <= b.p_vaddr || b.p_vaddr + b.p_memsz <= a.p_vaddr
}

/// Writes one segment into the region, which it fits into.
fn place_segment(file: &[u8], ph: &ProgramHeader, base: u64, region: &mut [u8])
    requires
        placement_fault(old(region)@.len() as int, base as int, file@.len() as int, *ph) is None,
    ensures
        final(region)@ == place_one(old(region)@, base as int, file@, *ph),
{
    let region_len: usize = region.len();
    let file_len: usize = file.len();
    let at: usize = (ph.p_vaddr - base) as usize;
    let filesz: usize = ph.p_filesz as usize;
    let memsz: usize = ph.p_memsz as usize;
    let offset: usize = ph.p_offset as usize;
    let mut i: usize = 0;
    while i < memsz
        invariant
            i <= memsz,
            filesz <= memsz,
            at + memsz <= region@.len() <= usize::MAX,
            region@.len() == old(region)@.len(),
            offset + filesz <= file@.len() <= usize::MAX,
            at == ph.p_vaddr - base,
            filesz == ph.p_filesz,
            memsz == ph.p_memsz,
            offset == ph.p_offset,
            forall|j: int| 0 <= j < at || at + i <= j < region@.len() ==> region@[j] == old(region)@[j],
            forall|j: int| at <= j < at + i ==> region@[j] == segment_memory(file@, *ph)[j - at],
        decreases memsz - i,
    {
        if i < filesz {
            region[at + i] = file[offset + i];
        } else {
            region[at + i] = 0;
        }
        i += 1;
    }
    assert(region@ =~= place_one(old(region)@, base as int, file@, *ph));
}

/// Loads every loadable segment of `phdrs` into `region`, the memory that was
/// allocated at address `base`: each at its own address, its file bytes first
/// and zeros after them. Segments are placed in the order given, and the
/// first one that cannot be placed ends the work with its error.
pub fn place_segments(file: &[u8], phdrs: &Vec<ProgramHeader>, base: u64, region: &mut [u8]) -> (r: Result<
    (),
    LoaderError,
>)
    ensures
        final(region)@ == place_all(old(region)@, base as int, file@, phdrs@).0,
        match place_all(old(region)@, base as int, file@, phdrs@).1 {
            None => r == Ok::<(), LoaderError>(()),
            Some(e) => r == Err::<(), LoaderError>(e),
        },
{
    let mut i: usize = 0;
    while i < phdrs.len()
        invariant
            i <= phdrs.len(),
            region@.len() == old(region)@.len(),
            place_all(old(region)@, base as int, file@, phdrs@.take(i as int)) == (region@, None::<LoaderError>),
        decreases phdrs.len() - i,
    {
        let ph = phdrs[i];
        proof {
            assert(phdrs@.take(i + 1).drop_last() == phdrs@.take(i as int));
            assert(phdrs@.take(i + 1).last() == ph);
        }
        if ph.p_type == PT_LOAD {
            let fault = if ph.p_filesz > ph.p_memsz {
                Some(LoaderError::FileSizeExceedsMemSize)
            } else if ph.p_offset > file.len() as u64 || ph.p_filesz > file.len() as u64 - ph.p_offset {
                Some(LoaderError::SegmentOutsideFile)
            } else if ph.p_vaddr < base || ph.p_vaddr - base > region.len() as u64 || ph.p_memsz
                > region.len() as u64 - (ph.p_vaddr - base) {
                Some(LoaderError::SegmentOutsideRegion)
            } else {
                None
            };
            assert(fault == placement_fault(region@.len() as int, base as int, file@.len() as int, ph));
            match fault {
                Some(e) => {
                    proof {
                        lemma_place_all_stops(old(region)@, base as int, file@, phdrs@, i + 1);
                    }
                    return Err(e);
                },
                None => {
                    place_segment(file, &ph, base, region);
                },
            }
        }
        i += 1;
    }
    assert(phdrs@.take(i as int) == phdrs@);
    Ok(())
}

/// Once a segment has stopped the work, the segments after it change nothing.
pub proof fn lemma_place_all_stops(region: Seq<u8>, base: int, file: Seq<u8>, phdrs: Seq<ProgramHeader>, n: int)
    requires
        0 <= n <= phdrs.len(),
        place_all(region, base, file, phdrs.take(n)).1 is Some,
    ensures
        place_all(region, base, file, phdrs) == place_all(region, base, file, phdrs.take(n)),
    decreases phdrs.len() - n,
{
    if n < phdrs.len() {
        assert(phdrs.take(n + 1).drop_last() == phdrs.take(n));
        lemma_place_all_stops(region, base, file, phdrs, n + 1);
    } else {
        assert(phdrs.take(n) == phdrs);
    }
}

/// Placing keeps the region's length, and every byte that lies in no
/// loadable segment.
pub proof fn lemma_place_all_frame(region: Seq<u8>, base: int, file: Seq<u8>, phdrs: Seq<ProgramHeader>, at: int)
    requires
        0 <= at < region.len(),
        forall|k: int|
            0 <= k < phdrs.len() && #[trigger] phdrs[k].loadable() ==> !(phdrs[k].p_vaddr - base <= at
                < phdrs[k].p_vaddr - base + phdrs[k].p_memsz),
    ensures
        place_all(region, base, file, phdrs).0.len() == region.len(),
        place_all(region, base, file, phdrs).0[at] == region[at],
    decreases phdrs.len(),
{
    if phdrs.len() > 0 {
        let init = phdrs.drop_last();
        assert forall|k: int| 0 <= k < init.len() && #[trigger] init[k].loadable() implies !(init[k].p_vaddr
            - base <= at < init[k].p_vaddr - base + init[k].p_memsz) by {
            assert(init[k] == phdrs[k]);
        }
        lemma_place_all_frame(region, base, file, init, at);
        assert(phdrs[phdrs.len() - 1] == phdrs.last());
    }
}

/// When all loadable segments are placed and no two of them share memory,
/// the region holds every one of them as loaded: from the segment's address
/// on, its file bytes, and zeros after them up to its size in memory.
pub proof fn lemma_segments_placed(
    region: Seq<u8>,
    base: int,
    file: Seq<u8>,
    phdrs: Seq<ProgramHeader>,
    k: int,
)
    requires
        place_all(region, base, file, phdrs).1 is None,
        0 <= k < phdrs.len(),
        phdrs[k].loadable(),
        forall|i: int, j: int|
            0 <= i < j < phdrs.len() && #[trigger] phdrs[i].loadable() && #[trigger] phdrs[j].loadable()
                ==> apart(phdrs[i], phdrs[j]),
    ensures
        placement_fault(region.len() as int, base, file.len() as int, phdrs[k]) is None,
        place_all(region, base, file, phdrs).0.len() == region.len(),
        place_all(region, base, file, phdrs).0.subrange(
            phdrs[k].p_vaddr - base,
            phdrs[k].p_vaddr - base + phdrs[k].p_memsz,
        ) == segment_memory(file, phdrs[k]),
    decreases phdrs.len(),
{
    let init = phdrs.drop_last();
    let last = phdrs.last();
    let before = place_all(region, base, file, init);
    let after = place_all(region, base, file, phdrs);
    let from = phdrs[k].p_vaddr - base;
    lemma_place_all_len(region, base, file, init);
    lemma_place_all_len(region, base, file, phdrs);
    if k == phdrs.len() - 1 {
        assert(after.0 == place_one(before.0, base, file, last));
        assert(after.0.subrange(from, from + phdrs[k].p_memsz) =~= segment_memory(file, phdrs[k]));
    } else {
        assert(init[k] == phdrs[k]);
        assert forall|i: int, j: int|
            0 <= i < j < init.len() && #[trigger] init[i].loadable() && #[trigger] init[j].loadable() implies apart(
            init[i],
            init[j],
        ) by {
            assert(init[i] == phdrs[i] && init[j] == phdrs[j]);
        }
        lemma_segments_placed(region, base, file, init, k);
        if last.loadable() {
            assert(phdrs[phdrs.len() - 1].loadable());
            assert(apart(phdrs[k], phdrs[phdrs.len() - 1]));
            assert(after.0.subrange(from, from + phdrs[k].p_memsz) =~= before.0.subrange(
                from,
                from + phdrs[k].p_memsz,
            ));
        }
    }
}

/// Placing keeps the region's length.
pub proof fn lemma_place_all_len(region: Seq<u8>, base: int, file: Seq<u8>, phdrs: Seq<ProgramHeader>)
    ensures
        place_all(region, base, file, phdrs).0.len() == region.len(),
    decreases phdrs.len(),
{
    if phdrs.len() > 0 {
        lemma_place_all_len(region, base, file, phdrs.drop_last());
    }
}

} // verus!

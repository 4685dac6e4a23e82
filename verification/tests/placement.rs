use kani2::loader::placement::{calc_alloc_region, AllocRegion, LoaderError, ProgramHeader, PT_LOAD};

const PT_NOTE: u32 = 4;

fn load(vaddr: u64, filesz: u64, memsz: u64) -> ProgramHeader {
    ProgramHeader::new(PT_LOAD, 0, vaddr, filesz, memsz)
}

#[test]
fn two_segments_merge_into_three_pages() {
    let phdrs = vec![load(0x1000, 0x500, 0x800), load(0x3000, 0x200, 0x200)];
    assert_eq!(calc_alloc_region(&phdrs), Ok(AllocRegion { base: 0x1000, page_count: 3 }));
}

#[test]
fn no_loadable_segment_gives_the_empty_region() {
    assert_eq!(calc_alloc_region(&Vec::new()), Ok(AllocRegion { base: 0, page_count: 0 }));
    let phdrs = vec![ProgramHeader::new(PT_NOTE, 0, 0x5000, 0x10, 0x10)];
    assert_eq!(calc_alloc_region(&phdrs), Ok(AllocRegion { base: 0, page_count: 0 }));
}

#[test]
fn other_segment_types_are_skipped() {
    let phdrs = vec![
        ProgramHeader::new(PT_NOTE, 0, 0x9000_0000, 0x10, 0x10),
        load(0x20_0000, 0x100, 0x100),
        ProgramHeader::new(PT_NOTE, 0, 0xa000_0000, 0x10, 0x10),
    ];
    assert_eq!(calc_alloc_region(&phdrs), Ok(AllocRegion { base: 0x20_0000, page_count: 1 }));
}

#[test]
fn unaligned_start_counts_towards_the_pages() {
    // 0x1000 bytes at 0x1234 reach into a second page.
    let phdrs = vec![load(0x1234, 0x1000, 0x1000)];
    assert_eq!(calc_alloc_region(&phdrs), Ok(AllocRegion { base: 0x1000, page_count: 2 }));
    // 0xdcc bytes at 0x1234 end exactly at the page's end.
    let phdrs = vec![load(0x1234, 0, 0xdcc)];
    assert_eq!(calc_alloc_region(&phdrs), Ok(AllocRegion { base: 0x1000, page_count: 1 }));
    let phdrs = vec![load(0x1234, 0, 0xdcd)];
    assert_eq!(calc_alloc_region(&phdrs), Ok(AllocRegion { base: 0x1000, page_count: 2 }));
}

#[test]
fn empty_segment_takes_no_page() {
    let phdrs = vec![load(0x4000, 0, 0)];
    assert_eq!(calc_alloc_region(&phdrs), Ok(AllocRegion { base: 0x4000, page_count: 0 }));
}

#[test]
fn region_only_grows() {
    let mut phdrs = vec![load(0x10_0000, 0x1000, 0x3000)];
    let first = calc_alloc_region(&phdrs).unwrap();
    assert_eq!(first, AllocRegion { base: 0x10_0000, page_count: 3 });
    // A segment inside the region changes nothing.
    phdrs.push(load(0x10_1000, 0x10, 0x10));
    assert_eq!(calc_alloc_region(&phdrs), Ok(first));
    // A segment beyond it extends it over the gap.
    phdrs.push(load(0x10_8000, 0x10, 0x1001));
    assert_eq!(calc_alloc_region(&phdrs), Ok(AllocRegion { base: 0x10_0000, page_count: 10 }));
    // A segment below the base does not move the base.
    phdrs.push(load(0x1000, 0x10, 0x10));
    assert_eq!(calc_alloc_region(&phdrs), Ok(AllocRegion { base: 0x10_0000, page_count: 10 }));
}

#[test]
fn first_segment_at_page_zero_fixes_the_base() {
    let phdrs = vec![load(0x10, 0x10, 0x20), load(0x3000, 0x10, 0x10)];
    assert_eq!(calc_alloc_region(&phdrs), Ok(AllocRegion { base: 0, page_count: 4 }));
}

#[test]
fn segment_past_the_address_space_is_refused() {
    let phdrs = vec![load(u64::MAX - 0x10, 0, 0x20)];
    assert_eq!(calc_alloc_region(&phdrs), Err(LoaderError::AddressOverflow));
    let phdrs = vec![load(0x1000, 0, 0x100), load(0x2000, 0, u64::MAX)];
    assert_eq!(calc_alloc_region(&phdrs), Err(LoaderError::AddressOverflow));
    // The last page of the address space cannot be covered: its end is 2^64.
    let phdrs = vec![load(u64::MAX - 0xfff, 0, 1)];
    assert_eq!(calc_alloc_region(&phdrs), Err(LoaderError::AddressOverflow));
    let phdrs = vec![load(u64::MAX - 0x1fff, 0, 0x1000)];
    assert_eq!(
        calc_alloc_region(&phdrs),
        Ok(AllocRegion { base: u64::MAX - 0x1fff, page_count: 1 })
    );
}

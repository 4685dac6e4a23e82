use kani2::loader::placement::{LoaderError, ProgramHeader, PT_LOAD};
use kani2::loader::segment::place_segments;

#[test]
fn file_bytes_are_copied_and_the_rest_is_cleared() {
    let file: Vec<u8> = (0u8..32).collect();
    let phdrs = vec![ProgramHeader::new(PT_LOAD, 4, 0x1000, 6, 10)];
    let mut region = vec![0xaau8; 10];
    assert_eq!(place_segments(&file, &phdrs, 0x1000, &mut region), Ok(()));
    assert_eq!(region, vec![4, 5, 6, 7, 8, 9, 0, 0, 0, 0]);
}

#[test]
fn segment_without_bss_is_a_plain_copy() {
    let file = vec![1u8, 2, 3, 4];
    let phdrs = vec![ProgramHeader::new(PT_LOAD, 0, 0x2000, 4, 4)];
    let mut region = vec![9u8; 4];
    assert_eq!(place_segments(&file, &phdrs, 0x2000, &mut region), Ok(()));
    assert_eq!(region, file);
}

#[test]
fn segment_without_file_bytes_is_all_zero() {
    let file = vec![1u8, 2, 3, 4];
    let phdrs = vec![ProgramHeader::new(PT_LOAD, 4, 0x2000, 0, 3)];
    let mut region = vec![9u8; 3];
    assert_eq!(place_segments(&file, &phdrs, 0x2000, &mut region), Ok(()));
    assert_eq!(region, vec![0, 0, 0]);
}

#[test]
fn every_segment_lands_at_its_own_address() {
    let file: Vec<u8> = (100u8..140).collect();
    let phdrs = vec![
        ProgramHeader::new(PT_LOAD, 0, 0x1002, 3, 5),
        ProgramHeader::new(4, 0, 0x1000, 16, 16),
        ProgramHeader::new(PT_LOAD, 10, 0x100a, 2, 4),
    ];
    let mut region = vec![0xeeu8; 16];
    assert_eq!(place_segments(&file, &phdrs, 0x1000, &mut region), Ok(()));
    assert_eq!(
        region,
        vec![0xee, 0xee, 100, 101, 102, 0, 0, 0xee, 0xee, 0xee, 110, 111, 0, 0, 0xee, 0xee]
    );
}

#[test]
fn later_segment_overwrites_an_earlier_one_where_they_overlap() {
    let file = vec![1u8, 2, 3, 4, 5, 6];
    let phdrs = vec![
        ProgramHeader::new(PT_LOAD, 0, 0x1000, 4, 4),
        ProgramHeader::new(PT_LOAD, 4, 0x1002, 2, 3),
    ];
    let mut region = vec![9u8; 6];
    assert_eq!(place_segments(&file, &phdrs, 0x1000, &mut region), Ok(()));
    assert_eq!(region, vec![1, 2, 5, 6, 0, 9]);
}

#[test]
fn file_range_outside_the_file_is_refused() {
    let file = vec![1u8, 2, 3, 4];
    let mut region = vec![9u8; 5];
    let phdrs = vec![ProgramHeader::new(PT_LOAD, 2, 0x2000, 3, 5)];
    assert_eq!(
        place_segments(&file, &phdrs, 0x2000, &mut region),
        Err(LoaderError::SegmentOutsideFile)
    );
    assert_eq!(region, vec![9u8; 5]);
    let phdrs = vec![ProgramHeader::new(PT_LOAD, u64::MAX, 0x2000, 1, 5)];
    assert_eq!(
        place_segments(&file, &phdrs, 0x2000, &mut region),
        Err(LoaderError::SegmentOutsideFile)
    );
    assert_eq!(region, vec![9u8; 5]);
}

#[test]
fn more_file_bytes_than_memory_is_refused() {
    let file = vec![1u8, 2, 3, 4];
    let phdrs = vec![ProgramHeader::new(PT_LOAD, 0, 0x2000, 4, 2)];
    let mut region = vec![9u8; 2];
    assert_eq!(
        place_segments(&file, &phdrs, 0x2000, &mut region),
        Err(LoaderError::FileSizeExceedsMemSize)
    );
    assert_eq!(region, vec![9u8; 2]);
}

#[test]
fn segment_outside_the_region_is_refused() {
    let file = vec![1u8, 2, 3, 4];
    let mut region = vec![9u8; 8];
    for ph in [
        ProgramHeader::new(PT_LOAD, 0, 0x1fff, 1, 1),
        ProgramHeader::new(PT_LOAD, 0, 0x2000, 4, 9),
        ProgramHeader::new(PT_LOAD, 0, 0x2007, 2, 2),
        ProgramHeader::new(PT_LOAD, 0, 0x2009, 0, 0),
        ProgramHeader::new(PT_LOAD, 0, u64::MAX, 1, u64::MAX),
    ] {
        assert_eq!(
            place_segments(&file, &vec![ph], 0x2000, &mut region),
            Err(LoaderError::SegmentOutsideRegion)
        );
        assert_eq!(region, vec![9u8; 8]);
    }
    // An empty segment right at the region's end has room.
    let ph = ProgramHeader::new(PT_LOAD, 0, 0x2008, 0, 0);
    assert_eq!(place_segments(&file, &vec![ph], 0x2000, &mut region), Ok(()));
}

#[test]
fn segments_before_the_faulty_one_stay_placed() {
    let file = vec![1u8, 2, 3, 4];
    let phdrs = vec![
        ProgramHeader::new(PT_LOAD, 0, 0x3000, 2, 3),
        ProgramHeader::new(PT_LOAD, 0, 0x3004, 9, 9),
        ProgramHeader::new(PT_LOAD, 2, 0x3006, 2, 2),
    ];
    let mut region = vec![7u8; 8];
    assert_eq!(
        place_segments(&file, &phdrs, 0x3000, &mut region),
        Err(LoaderError::SegmentOutsideFile)
    );
    assert_eq!(region, vec![1, 2, 0, 7, 7, 7, 7, 7]);
}

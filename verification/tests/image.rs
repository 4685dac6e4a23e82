use kani2::boot::{BootInfo, MemoryMap};
use kani2::loader::image::parse_kernel;
use kani2::loader::placement::{calc_alloc_region, AllocRegion, LoaderError, ProgramHeader, PT_LOAD};
use kani2::loader::segment::place_segments;
use kani2::loader::sequence::{efi_main, LoaderAction, LoaderStage};

fn put16(out: &mut Vec<u8>, v: u16) {
    out.extend_from_slice(&v.to_le_bytes());
}

fn put32(out: &mut Vec<u8>, v: u32) {
    out.extend_from_slice(&v.to_le_bytes());
}

fn put64(out: &mut Vec<u8>, v: u64) {
    out.extend_from_slice(&v.to_le_bytes());
}

/// A 64-bit little-endian executable with the given program headers and,
/// behind them, the given payload.
fn elf(entry: u64, phdrs: &[ProgramHeader], payload: &[u8]) -> Vec<u8> {
    let mut out = vec![0x7f, b'E', b'L', b'F', 2, 1, 1, 0, 0, 0, 0, 0, 0, 0, 0, 0];
    put16(&mut out, 2);
    put16(&mut out, 0x3e);
    put32(&mut out, 1);
    put64(&mut out, entry);
    put64(&mut out, 64);
    put64(&mut out, 0);
    put32(&mut out, 0);
    put16(&mut out, 64);
    put16(&mut out, 56);
    put16(&mut out, phdrs.len() as u16);
    put16(&mut out, 64);
    put16(&mut out, 0);
    put16(&mut out, 0);
    for ph in phdrs {
        put32(&mut out, ph.p_type);
        put32(&mut out, 7);
        put64(&mut out, ph.p_offset);
        put64(&mut out, ph.p_vaddr);
        put64(&mut out, ph.p_vaddr);
        put64(&mut out, ph.p_filesz);
        put64(&mut out, ph.p_memsz);
        put64(&mut out, 0x1000);
    }
    out.extend_from_slice(payload);
    out
}

#[test]
fn parser_finds_entry_and_program_headers() {
    let phdrs = [
        ProgramHeader::new(PT_LOAD, 176, 0x10_0000, 4, 0x20),
        ProgramHeader::new(4, 180, 0x20_0000, 2, 2),
    ];
    let file = elf(0x10_0040, &phdrs, &[1, 2, 3, 4, 5, 6]);
    let image = parse_kernel(&file).unwrap();
    assert_eq!(image.entry, 0x10_0040);
    assert_eq!(image.program_headers, phdrs.to_vec());
}

#[test]
fn bytes_that_are_no_elf_image_are_malformed() {
    assert_eq!(parse_kernel(&[]).unwrap_err(), LoaderError::MalformedElf);
    assert_eq!(parse_kernel(b"not an image at all").unwrap_err(), LoaderError::MalformedElf);
    let mut file = elf(0, &[], &[]);
    file[0] = 0;
    assert_eq!(parse_kernel(&file).unwrap_err(), LoaderError::MalformedElf);
}

#[test]
fn one_segment_kernel_boots_end_to_end() {
    let entry = 0x40_0010u64;
    let payload = [0x11u8, 0x22, 0x33, 0x44, 0x55];
    let ph = ProgramHeader::new(PT_LOAD, 120, 0x40_0000, 5, 0x1800);
    let file = elf(entry, &[ph], &payload);
    // What the firmware would report: three descriptors somewhere in memory.
    let firmware_map = 0x7f00_0000u64;

    let mut stage = LoaderStage::Start;
    let mut outcome: Result<(), LoaderError> = Ok(());
    let mut image = None;
    let mut region = None;
    let mut memory: Vec<u8> = Vec::new();
    let mut boot_info = None;
    let mut jumped_to = None;
    let mut released = false;
    loop {
        let (next, action) = efi_main(stage, outcome);
        stage = next;
        outcome = Ok(());
        match action {
            LoaderAction::LocateSerial | LoaderAction::OpenVolume | LoaderAction::OpenKernel => {}
            LoaderAction::ReadKernel => {}
            LoaderAction::ParseKernel => match parse_kernel(&file) {
                Ok(parsed) => match calc_alloc_region(&parsed.program_headers) {
                    Ok(r) => {
                        region = Some(r);
                        image = Some(parsed);
                    }
                    Err(e) => outcome = Err(e),
                },
                Err(e) => outcome = Err(e),
            },
            LoaderAction::AllocatePages => {
                let r: AllocRegion = region.unwrap();
                memory = vec![0xccu8; (r.page_count * 0x1000) as usize];
            }
            LoaderAction::PlaceSegments => {
                let base = region.unwrap().base;
                let phdrs = &image.as_ref().unwrap().program_headers;
                outcome = place_segments(&file, phdrs, base, &mut memory);
            }
            LoaderAction::CaptureMemoryMap => {
                boot_info = Some(BootInfo::new(MemoryMap::new(firmware_map, 3)));
            }
            LoaderAction::ExitBootServices => released = true,
            LoaderAction::Jump => {
                assert!(released);
                jumped_to = Some(image.as_ref().unwrap().entry);
            }
            LoaderAction::Halt(e) => panic!("loader halted: {:?}", e),
            LoaderAction::Return => break,
        }
    }
    assert_eq!(stage, LoaderStage::Launched);
    assert_eq!(region, Some(AllocRegion { base: 0x40_0000, page_count: 2 }));
    assert_eq!(jumped_to, Some(entry));
    assert_eq!(memory.len(), 0x2000);
    assert_eq!(&memory[..5], &payload);
    assert!(memory[5..0x1800].iter().all(|b| *b == 0));
    assert!(memory[0x1800..].iter().all(|b| *b == 0xcc));
    let mut map = *boot_info.unwrap().mmap();
    assert_eq!(map.next(), Some(firmware_map));
}

#[test]
fn malformed_kernel_halts_the_loader() {
    let mut stage = LoaderStage::Start;
    let mut outcome: Result<(), LoaderError> = Ok(());
    let mut actions = Vec::new();
    for _ in 0..8 {
        let (next, action) = efi_main(stage, outcome);
        stage = next;
        outcome = Ok(());
        if action == LoaderAction::ParseKernel {
            outcome = parse_kernel(b"garbage").map(|_| ());
        }
        actions.push(action);
    }
    assert_eq!(stage, LoaderStage::Halted(LoaderError::MalformedElf));
    assert_eq!(
        actions,
        vec![
            LoaderAction::LocateSerial,
            LoaderAction::OpenVolume,
            LoaderAction::OpenKernel,
            LoaderAction::ReadKernel,
            LoaderAction::ParseKernel,
            LoaderAction::Halt(LoaderError::MalformedElf),
            LoaderAction::Halt(LoaderError::MalformedElf),
            LoaderAction::Halt(LoaderError::MalformedElf),
        ]
    );
}

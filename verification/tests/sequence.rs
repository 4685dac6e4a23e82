use kani2::loader::placement::LoaderError;
use kani2::loader::sequence::{
    efi_main, file_outcome, kernel_file_name, read_outcome, LoaderAction, LoaderStage,
};

#[test]
fn loader_steps_come_in_order() {
    let mut stage = LoaderStage::Start;
    let mut actions = Vec::new();
    let mut stages = Vec::new();
    for _ in 0..11 {
        let (next, action) = efi_main(stage, Ok(()));
        stage = next;
        actions.push(action);
        stages.push(next);
    }
    assert_eq!(
        actions,
        vec![
            LoaderAction::LocateSerial,
            LoaderAction::OpenVolume,
            LoaderAction::OpenKernel,
            LoaderAction::ReadKernel,
            LoaderAction::ParseKernel,
            LoaderAction::AllocatePages,
            LoaderAction::PlaceSegments,
            LoaderAction::CaptureMemoryMap,
            LoaderAction::ExitBootServices,
            LoaderAction::Jump,
            LoaderAction::Return,
        ]
    );
    assert_eq!(
        stages,
        vec![
            LoaderStage::LocatingSerial,
            LoaderStage::OpeningVolume,
            LoaderStage::OpeningKernel,
            LoaderStage::ReadingKernel,
            LoaderStage::ParsingKernel,
            LoaderStage::AllocatingPages,
            LoaderStage::PlacingSegments,
            LoaderStage::CapturingMemoryMap,
            LoaderStage::ReleasingServices,
            LoaderStage::Launched,
            LoaderStage::Launched,
        ]
    );
}

#[test]
fn start_ignores_the_outcome() {
    assert_eq!(
        efi_main(LoaderStage::Start, Err(LoaderError::AllocationFailed)),
        (LoaderStage::LocatingSerial, LoaderAction::LocateSerial)
    );
}

#[test]
fn any_failure_halts_for_good() {
    let busy = [
        (LoaderStage::LocatingSerial, LoaderError::SerialUnavailable),
        (LoaderStage::OpeningVolume, LoaderError::VolumeUnavailable),
        (LoaderStage::OpeningKernel, LoaderError::KernelNotFound),
        (LoaderStage::OpeningKernel, LoaderError::NotRegularFile),
        (LoaderStage::ReadingKernel, LoaderError::ReadSizeMismatch),
        (LoaderStage::ParsingKernel, LoaderError::MalformedElf),
        (LoaderStage::ParsingKernel, LoaderError::AddressOverflow),
        (LoaderStage::AllocatingPages, LoaderError::AllocationFailed),
        (LoaderStage::PlacingSegments, LoaderError::SegmentOutsideFile),
        (LoaderStage::PlacingSegments, LoaderError::FileSizeExceedsMemSize),
        (LoaderStage::CapturingMemoryMap, LoaderError::MemoryMapUnavailable),
        (LoaderStage::ReleasingServices, LoaderError::AllocationFailed),
    ];
    for (stage, error) in busy {
        let (next, action) = efi_main(stage, Err(error));
        assert_eq!(next, LoaderStage::Halted(error));
        assert_eq!(action, LoaderAction::Halt(error));
        assert_eq!(efi_main(next, Ok(())), (LoaderStage::Halted(error), LoaderAction::Halt(error)));
        assert_eq!(
            efi_main(next, Err(LoaderError::KernelNotFound)),
            (LoaderStage::Halted(error), LoaderAction::Halt(error))
        );
    }
}

#[test]
fn only_a_regular_file_of_the_full_size_will_do() {
    assert_eq!(file_outcome(true), Ok(()));
    assert_eq!(file_outcome(false), Err(LoaderError::NotRegularFile));
    assert_eq!(read_outcome(4096, 4096), Ok(()));
    assert_eq!(read_outcome(4096, 4095), Err(LoaderError::ReadSizeMismatch));
    assert_eq!(read_outcome(0, 1), Err(LoaderError::ReadSizeMismatch));
}

#[test]
fn kernel_file_has_its_fixed_name() {
    assert_eq!(kernel_file_name(), "kani2_kernel.elf");
}

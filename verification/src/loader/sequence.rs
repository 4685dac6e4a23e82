//! The loader's steps from firmware entry to the jump into the kernel.

use vstd::prelude::*;
use crate::loader::placement::LoaderError;

verus! {

/// What the loader is busy with.
#[derive(Debug, Clone, Copy, PartialEq, Eq, Structural)]
pub enum LoaderStage {
    /// The firmware has just started the loader.
    Start,
    /// Looking for the serial console.
    LocatingSerial,
    /// Opening the root directory of the boot volume.
    OpeningVolume,
    /// Opening the kernel file.
    OpeningKernel,
    /// Reading the kernel file into memory.
    ReadingKernel,
    /// Parsing the image and computing its placement.
    ParsingKernel,
    /// Asking the firmware for the pages at the fixed address.
    AllocatingPages,
    /// Filling the segments.
    PlacingSegments,
    /// Copying the firmware's memory map.
    CapturingMemoryMap,
    /// Leaving the firmware's boot services.
    ReleasingServices,
    /// The kernel has been entered.
    Launched,
    /// The loader has given up.
    Halted(LoaderError),
}

/// What the loader does next.
#[derive(Debug, Clone, Copy, PartialEq, Eq, Structural)]
pub enum LoaderAction {
    /// Locate the serial protocol and reset the device.
    LocateSerial,
    /// Open the root directory of the volume that the loader came from.
    OpenVolume,
    /// Open the kernel file, for reading.
    OpenKernel,
    /// Read the whole file.
    ReadKernel,
    /// Parse the image and compute the allocation.
    ParseKernel,
    /// Allocate the pages at exactly the computed address.
    AllocatePages,
    /// Load every loadable segment.
    PlaceSegments,
    /// Query the memory map and copy its descriptors.
    CaptureMemoryMap,
    /// Exit boot services; no firmware call is allowed after this.
    ExitBootServices,
    /// Call the kernel's entry point.
    Jump,
    /// Stop for good.
    Halt(LoaderError),
    /// Hand control back to the firmware.
    Return,
}

/// One step of the loader. `outcome` tells how the action of `stage` went;
/// nothing has been attempted at `Start`, so there it does not count.
///
/// Each success leads to the next action; any failure ends in `Halted`, with
/// the error as it was reported. `Halted` is never left. The kernel is not
/// expected to return, but if it does, so does the loader.
pub open spec fn loader_step(stage: LoaderStage, outcome: Result<(), LoaderError>) -> (
    LoaderStage,
    LoaderAction,
) {
    match stage {
        LoaderStage::Start => (LoaderStage::LocatingSerial, LoaderAction::LocateSerial),
        LoaderStage::Halted(e) => (LoaderStage::Halted(e), LoaderAction::Halt(e)),
        LoaderStage::Launched => (LoaderStage::Launched, LoaderAction::Return),
        _ => match outcome {
            Err(e) => (LoaderStage::Halted(e), LoaderAction::Halt(e)),
            Ok(_) => match stage {
                LoaderStage::LocatingSerial => (LoaderStage::OpeningVolume, LoaderAction::OpenVolume),
                LoaderStage::OpeningVolume => (LoaderStage::OpeningKernel, LoaderAction::OpenKernel),
                LoaderStage::OpeningKernel => (LoaderStage::ReadingKernel, LoaderAction::ReadKernel),
                LoaderStage::ReadingKernel => (LoaderStage::ParsingKernel, LoaderAction::ParseKernel),
                LoaderStage::ParsingKernel => (LoaderStage::AllocatingPages, LoaderAction::AllocatePages),
                LoaderStage::AllocatingPages => (LoaderStage::PlacingSegments, LoaderAction::PlaceSegments),
                LoaderStage::PlacingSegments => (
                    LoaderStage::CapturingMemoryMap,
                    LoaderAction::CaptureMemoryMap,
                ),
                LoaderStage::CapturingMemoryMap => (
                    LoaderStage::ReleasingServices,
                    LoaderAction::ExitBootServices,
                ),
                _ => (LoaderStage::Launched, LoaderAction::Jump),
            },
        },
    }
}

/// The actions of the first `n` steps from `stage` when every action
/// succeeds.
pub open spec fn loader_actions(stage: LoaderStage, n: nat) -> Seq<LoaderAction>
    decreases n,
{
    if n == 0 {
        Seq::empty()
    } else {
        seq![loader_step(stage, Ok(())).1] + loader_actions(loader_step(stage, Ok(())).0, (n - 1) as nat)
    }
}

/// Name of the kernel file in the root directory of the boot volume.
pub fn kernel_file_name() -> (name: &'static str)
    ensures
        name@ == "kani2_kernel.elf"@,
{
    "kani2_kernel.elf"
}

/// How opening the kernel went, given what was found under its name: only a
/// regular file will do.
pub fn file_outcome(is_regular_file: bool) -> (outcome: Result<(), LoaderError>)
    ensures
        outcome == if is_regular_file {
            Ok::<(), LoaderError>(())
        } else {
            Err::<(), LoaderError>(LoaderError::NotRegularFile)
        },
{
    if is_regular_file {
        Ok(())
    } else {
        Err(LoaderError::NotRegularFile)
    }
}

/// How reading the kernel went, given the file's size and the number of bytes
/// that were read: the two must agree.
pub fn read_outcome(file_size: u64, read_size: u64) -> (outcome: Result<(), LoaderError>)
    ensures
        outcome == if file_size == read_size {
            Ok::<(), LoaderError>(())
        } else {
            Err::<(), LoaderError>(LoaderError::ReadSizeMismatch)
        },
{
    if file_size == read_size {
        Ok(())
    } else {
        Err(LoaderError::ReadSizeMismatch)
    }
}

/// The loader's main line, step by step: given the stage whose action was
/// just performed and how that went, the next stage and its action.
pub fn efi_main(stage: LoaderStage, outcome: Result<(), LoaderError>) -> (next: (LoaderStage, LoaderAction))
    ensures
        next == loader_step(stage, outcome),
{
    match stage {
        LoaderStage::Start => (LoaderStage::LocatingSerial, LoaderAction::LocateSerial),
        LoaderStage::Halted(e) => (LoaderStage::Halted(e), LoaderAction::Halt(e)),
        LoaderStage::Launched => (LoaderStage::Launched, LoaderAction::Return),
        _ => match outcome {
            Err(e) => (LoaderStage::Halted(e), LoaderAction::Halt(e)),
            Ok(_) => match stage {
                LoaderStage::LocatingSerial => (LoaderStage::OpeningVolume, LoaderAction::OpenVolume),
                LoaderStage::OpeningVolume => (LoaderStage::OpeningKernel, LoaderAction::OpenKernel),
                LoaderStage::OpeningKernel => (LoaderStage::ReadingKernel, LoaderAction::ReadKernel),
                LoaderStage::ReadingKernel => (LoaderStage::ParsingKernel, LoaderAction::ParseKernel),
                LoaderStage::ParsingKernel => (LoaderStage::AllocatingPages, LoaderAction::AllocatePages),
                LoaderStage::AllocatingPages => (LoaderStage::PlacingSegments, LoaderAction::PlaceSegments),
                LoaderStage::PlacingSegments => (
                    LoaderStage::CapturingMemoryMap,
                    LoaderAction::CaptureMemoryMap,
                ),
                LoaderStage::CapturingMemoryMap => (
                    LoaderStage::ReleasingServices,
                    LoaderAction::ExitBootServices,
                ),
                _ => (LoaderStage::Launched, LoaderAction::Jump),
            },
        },
    }
}

/// When nothing fails, the loader's actions come in this order, and the jump
/// into the kernel is the tenth.
pub proof fn lemma_loader_order()
    ensures
        loader_actions(LoaderStage::Start, 10) == seq![
            LoaderAction::LocateSerial,
            LoaderAction::OpenVolume,
            LoaderAction::OpenKernel,
            LoaderAction::ReadKernel,
            LoaderAction::ParseKernel,
            LoaderAction::AllocatePages,
            LoaderAction::PlaceSegments,
            LoaderAction::CaptureMemoryMap,
            LoaderAction::ExitBootServices,
            LoaderAction::Jump,
        ],
{
    reveal_with_fuel(loader_actions, 11);
    assert(loader_actions(LoaderStage::Start, 10) =~= seq![
        LoaderAction::LocateSerial,
        LoaderAction::OpenVolume,
        LoaderAction::OpenKernel,
        LoaderAction::ReadKernel,
        LoaderAction::ParseKernel,
        LoaderAction::AllocatePages,
        LoaderAction::PlaceSegments,
        LoaderAction::CaptureMemoryMap,
        LoaderAction::ExitBootServices,
        LoaderAction::Jump,
    ]);
}

/// Every failure is final: whatever the loader is busy with, a failed action
/// halts it with that error, and a halted loader stays halted whatever comes.
pub proof fn lemma_fail_fast(stage: LoaderStage, e: LoaderError, outcome: Result<(), LoaderError>)
    ensures
        stage != LoaderStage::Start && stage != LoaderStage::Launched && !(stage is Halted) ==> loader_step(
            stage,
            Err(e),
        ) == (LoaderStage::Halted(e), LoaderAction::Halt(e)),
        loader_step(LoaderStage::Halted(e), outcome) == (LoaderStage::Halted(e), LoaderAction::Halt(e)),
{
}

} // verus!

//! Reading the kernel's ELF image.

use vstd::prelude::*;
use crate::loader::placement::{LoaderError, ProgramHeader};

verus! {

#[verifier::external_type_specification]
#[verifier::external_body]
pub struct ExElfError(goblin::error::Error);

/// What the loader keeps of a parsed ELF image.
#[derive(Debug)]
pub struct ElfImage {
    /// Address of the kernel's entry point.
    pub entry: u64,
    /// The program headers, in file order.
    pub program_headers: Vec<ProgramHeader>,
}

/// An `ElfImage` as mathematical values.
pub struct ElfContents {
    pub entry: u64,
    pub program_headers: Seq<ProgramHeader>,
}

impl View for ElfImage {
    type V = ElfContents;

    open spec fn view(&self) -> ElfContents {
        ElfContents { entry: self.entry, program_headers: self.program_headers@ }
    }
}

/// The entry point and program headers that the ELF parser finds in `bytes`;
/// `None` where it rejects them.
pub uninterp spec fn elf_contents(bytes: Seq<u8>) -> Option<ElfContents>;

/// `goblin::elf::Elf::parse`, keeping the entry address and, of each program
/// header, its type, file offset, address and the two sizes. The contract only
/// names the outcome: it is whatever the parser makes of these bytes.
#[verifier::external_body]
fn parse_elf(bytes: &[u8]) -> (r: Result<ElfImage, goblin::error::Error>)
    ensures
        match r {
            Ok(image) => elf_contents(bytes@) == Some(image@),
            Err(_) => elf_contents(bytes@) is None,
        },
{
    let elf = goblin::elf::Elf::parse(bytes)?;
    let program_headers = elf.program_headers.iter().map(
        |p| ProgramHeader::new(p.p_type, p.p_offset, p.p_vaddr, p.p_filesz, p.p_memsz),
    ).collect();
    Ok(ElfImage { entry: elf.entry, program_headers })
}

/// Parses the kernel image. A file that the ELF parser rejects is malformed.
pub fn parse_kernel(bytes: &[u8]) -> (r: Result<ElfImage, LoaderError>)
    ensures
        match r {
            Ok(image) => elf_contents(bytes@) == Some(image@),
            Err(e) => e == LoaderError::MalformedElf && elf_contents(bytes@) is None,
        },
{
    match parse_elf(bytes) {
        Ok(image) => Ok(image),
        Err(_) => Err(LoaderError::MalformedElf),
    }
}

} // verus!

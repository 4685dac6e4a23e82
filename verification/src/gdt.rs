//! The global descriptor table: flat code and data segments for the kernel
//! and for user mode.

use vstd::prelude::*;
use x86_64::structures::gdt::{Descriptor, GlobalDescriptorTable};

verus! {

/// Descriptor of the kernel's 64-bit code segment.
pub const KERNEL_CODE: u64 = 0x00af_9b00_0000_ffff;

/// Descriptor of the kernel's data segment.
pub const KERNEL_DATA: u64 = 0x00cf_9300_0000_ffff;

/// Descriptor of the 64-bit code segment for user mode.
pub const USER_CODE: u64 = 0x00af_fb00_0000_ffff;

/// Descriptor of the data segment for user mode.
pub const USER_DATA: u64 = 0x00cf_f300_0000_ffff;

#[verifier::external_type_specification]
#[verifier::external_body]
pub struct ExGlobalDescriptorTable(GlobalDescriptorTable);

/// The descriptors that a table holds, in index order. Entry 0 is the null
/// descriptor, which every table starts with.
pub uninterp spec fn descriptors(table: GlobalDescriptorTable) -> Seq<u64>;

/// The privilege level in a descriptor: bits 45 and 46.
pub open spec fn privilege_level(descriptor: u64) -> int {
    (descriptor as int / 0x2000_0000_0000) % 4
}

/// The selector of the descriptor at `index` for requests at level `rpl`.
pub open spec fn selector(index: int, rpl: int) -> int {
    index * 8 + rpl
}

/// `GlobalDescriptorTable::new`: a table that holds the null descriptor only.
#[verifier::external_body]
fn new_table() -> (table: GlobalDescriptorTable)
    ensures
        descriptors(table) == seq![0u64],
{
    GlobalDescriptorTable::new()
}

/// `GlobalDescriptorTable::add_entry` with a code or data descriptor: the
/// descriptor goes to the end of the table, and the selector returned is made
/// of its index and the privilege level in it. The table has room for eight
/// entries; the call panics on a full one.
#[verifier::external_body]
fn add_entry(table: &mut GlobalDescriptorTable, descriptor: u64) -> (sel: u16)
    requires
        descriptors(*old(table)).len() < 8,
    ensures
        descriptors(*final(table)) == descriptors(*old(table)).push(descriptor),
        sel == selector(descriptors(*old(table)).len() as int, privilege_level(descriptor)),
{
    table.add_entry(Descriptor::UserSegment(descriptor)).0
}

/// `Descriptor::kernel_code_segment`: the flags of a flat 64-bit code segment
/// at privilege level 0.
#[verifier::external_body]
fn kernel_code_segment() -> (descriptor: u64)
    ensures
        descriptor == KERNEL_CODE,
{
    match Descriptor::kernel_code_segment() {
        Descriptor::UserSegment(bits) => bits,
        Descriptor::SystemSegment(bits, _) => bits,
    }
}

/// `Descriptor::kernel_data_segment`: the flags of a flat data segment at
/// privilege level 0.
#[verifier::external_body]
fn kernel_data_segment() -> (descriptor: u64)
    ensures
        descriptor == KERNEL_DATA,
{
    match Descriptor::kernel_data_segment() {
        Descriptor::UserSegment(bits) => bits,
        Descriptor::SystemSegment(bits, _) => bits,
    }
}

/// `Descriptor::user_code_segment`: the flags of a flat 64-bit code segment
/// at privilege level 3.
#[verifier::external_body]
fn user_code_segment() -> (descriptor: u64)
    ensures
        descriptor == USER_CODE,
{
    match Descriptor::user_code_segment() {
        Descriptor::UserSegment(bits) => bits,
        Descriptor::SystemSegment(bits, _) => bits,
    }
}

/// `Descriptor::user_data_segment`: the flags of a flat data segment at
/// privilege level 3.
#[verifier::external_body]
fn user_data_segment() -> (descriptor: u64)
    ensures
        descriptor == USER_DATA,
{
    match Descriptor::user_data_segment() {
        Descriptor::UserSegment(bits) => bits,
        Descriptor::SystemSegment(bits, _) => bits,
    }
}

/// The selectors that the kernel loads into its segment registers.
#[derive(Debug, Clone, Copy, PartialEq, Eq, Structural)]
pub struct Selectors {
    /// Selector of the kernel's code segment.
    pub code: u16,
    /// Selector of the kernel's data segment.
    pub data: u16,
}

/// Builds the descriptor table: after the null descriptor come kernel code,
/// kernel data, user code and user data, in this order. Returns the table
/// with the selectors of the two kernel segments. The caller loads the table
/// and then reloads the code and data segment registers with them; the user
/// descriptors stay unused until there are user-mode tasks.
pub fn init() -> (gdt: (GlobalDescriptorTable, Selectors))
    ensures
        descriptors(gdt.0) == seq![0u64, KERNEL_CODE, KERNEL_DATA, USER_CODE, USER_DATA],
        gdt.1 == (Selectors { code: 0x08, data: 0x10 }),
{
    let mut table = new_table();
    let code = add_entry(&mut table, kernel_code_segment());
    let data = add_entry(&mut table, kernel_data_segment());
    let _ = add_entry(&mut table, user_code_segment());
    let _ = add_entry(&mut table, user_data_segment());
    assert(descriptors(table) =~= seq![0u64, KERNEL_CODE, KERNEL_DATA, USER_CODE, USER_DATA]);
    (table, Selectors { code, data })
}

} // verus!

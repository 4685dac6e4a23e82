use kani2::gdt::{Selectors, KERNEL_CODE, KERNEL_DATA, USER_CODE, USER_DATA};
use kani2::interrupt::{
    notify_end_of_interrupt, outcome, redirection, Gate, Handler, Outcome, Redirection,
    RegisterWrite, BREAKPOINT_VECTOR, DOUBLE_FAULT_VECTOR, IRQ_BASE, SERIAL_VECTOR,
};
use kani2::uart::IRQ_COM1;
use x86_64::structures::gdt::{Descriptor, DescriptorFlags, SegmentSelector};
use x86_64::PrivilegeLevel;

#[test]
fn descriptor_table_holds_the_four_flat_segments_in_order() {
    let (table, _) = kani2::gdt::init();
    assert_eq!(
        table.as_raw_slice(),
        &[
            0,
            0x00af_9b00_0000_ffff,
            0x00cf_9300_0000_ffff,
            0x00af_fb00_0000_ffff,
            0x00cf_f300_0000_ffff
        ]
    );
    assert_eq!(table.as_raw_slice(), &[0, KERNEL_CODE, KERNEL_DATA, USER_CODE, USER_DATA]);
}

#[test]
fn descriptors_are_those_of_the_crate() {
    assert_eq!(KERNEL_CODE, DescriptorFlags::KERNEL_CODE64.bits());
    assert_eq!(KERNEL_DATA, DescriptorFlags::KERNEL_DATA.bits());
    assert_eq!(USER_CODE, DescriptorFlags::USER_CODE64.bits());
    assert_eq!(USER_DATA, DescriptorFlags::USER_DATA.bits());
    let mut expected = x86_64::structures::gdt::GlobalDescriptorTable::new();
    expected.add_entry(Descriptor::kernel_code_segment());
    expected.add_entry(Descriptor::kernel_data_segment());
    expected.add_entry(Descriptor::user_code_segment());
    expected.add_entry(Descriptor::user_data_segment());
    assert_eq!(kani2::gdt::init().0.as_raw_slice(), expected.as_raw_slice());
}

#[test]
fn kernel_selectors_name_entries_one_and_two() {
    let (_, selectors) = kani2::gdt::init();
    assert_eq!(selectors, Selectors { code: 0x08, data: 0x10 });
    assert_eq!(SegmentSelector(selectors.code), SegmentSelector::new(1, PrivilegeLevel::Ring0));
    assert_eq!(SegmentSelector(selectors.data), SegmentSelector::new(2, PrivilegeLevel::Ring0));
}

#[test]
fn three_vectors_are_installed() {
    let table = kani2::interrupt::init();
    for v in 0..300 {
        let expected = match v {
            3 => Some(Gate { handler: Handler::Breakpoint, stack_index: None }),
            8 => Some(Gate { handler: Handler::DoubleFault, stack_index: Some(0) }),
            36 => Some(Gate { handler: Handler::SerialReceive, stack_index: None }),
            _ => None,
        };
        assert_eq!(table.gate(v), expected);
    }
    assert_eq!(BREAKPOINT_VECTOR, 3);
    assert_eq!(DOUBLE_FAULT_VECTOR, 8);
    assert_eq!(SERIAL_VECTOR, 36);
}

#[test]
fn serial_vector_is_its_line_above_the_base() {
    assert_eq!(SERIAL_VECTOR, IRQ_BASE + IRQ_COM1 as usize);
}

#[test]
fn only_the_double_fault_is_fatal() {
    assert_eq!(outcome(Handler::Breakpoint), Outcome::Resume);
    assert_eq!(outcome(Handler::SerialReceive), Outcome::Resume);
    assert_eq!(outcome(Handler::DoubleFault), Outcome::Halt);
}

#[test]
fn end_of_interrupt_is_a_zero_to_the_local_controller() {
    assert_eq!(notify_end_of_interrupt(), RegisterWrite { address: 0xfee0_00b0, value: 0 });
}

#[test]
fn serial_line_is_redirected_to_the_serial_vector() {
    assert_eq!(
        redirection(IRQ_COM1, 0),
        Some(Redirection { register: 0x18, low: 36, high: 0 })
    );
    assert_eq!(
        redirection(3, 2),
        Some(Redirection { register: 0x16, low: 35, high: 0x0200_0000 })
    );
    assert_eq!(
        redirection(23, 255),
        Some(Redirection { register: 0x3e, low: 55, high: 0xff00_0000 })
    );
}

#[test]
fn lines_and_processors_that_do_not_exist_are_refused() {
    assert_eq!(redirection(24, 0), None);
    assert_eq!(redirection(u32::MAX, 0), None);
    assert_eq!(redirection(4, 256), None);
}

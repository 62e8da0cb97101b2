use libkernel::kernel::idt::{keyboard_gate, KERNEL_CODE_SELECTOR};
use libkernel::bootstrap::gdt::{
    global_descriptor_table, Access, CodeAccess, DataAccess, ExpansionDirection, Flags, GdtEntry,
    Granularity, PrivilegeLevel, SegmentSize,
};
use libkernel::kernel::idt::{GateType, IdtEntry, IdtPointer, TypeAttributes};

#[test]
fn flat_descriptor_table() {
    let table = global_descriptor_table();
    assert_eq!(0, table[0].bits());
    assert_eq!(0x00cf_9b00_0000_ffff, table[1].bits());
    assert_eq!(0x00cf_9300_0000_ffff, table[2].bits());
}

#[test]
fn descriptor_scatters_base_and_limit() {
    let access = DataAccess {
        writable: false,
        direction: ExpansionDirection::Down,
        privilage_level: PrivilegeLevel::User,
    };
    assert_eq!(0xf5, access.access_byte());
    let flags = Flags { size: SegmentSize::Size16, granularity: Granularity::Byte };
    let entry = GdtEntry::new(0x1234_5678, 0xa_bcde, access, flags);
    assert_eq!(0x120a_f534_5678_bcde, entry.bits());
}

#[test]
fn code_access_byte() {
    let access = CodeAccess {
        readable: false,
        conforming: true,
        privilege_level: PrivilegeLevel::User,
    };
    assert_eq!(0xfd, access.access_byte());
}

#[test]
fn interrupt_gate_layout() {
    let attributes = TypeAttributes {
        gate_type: GateType::InterruptGate32,
        privilege_level: PrivilegeLevel::Kernel,
    };
    assert_eq!(0x8e, attributes.bits());
    let entry = IdtEntry::new(0x0010_2030, 0x08, attributes);
    assert_eq!(0x0010_8e00_0008_2030, entry.bits());
    let trap = TypeAttributes { gate_type: GateType::TrapGate16, privilege_level: PrivilegeLevel::User };
    assert_eq!(0xe7, trap.bits());
}

#[test]
fn idt_pointer_covers_the_whole_table() {
    let pointer = IdtPointer::for_table(0x0020_0000);
    assert_eq!(2047, pointer.limit);
    assert_eq!(0x0020_0000, pointer.base);
}

#[test]
fn keyboard_gate_targets_the_kernel_code_segment() {
    assert_eq!(0x08, KERNEL_CODE_SELECTOR);
    assert_eq!(0x0010_8e00_0008_2030, keyboard_gate(0x0010_2030).bits());
}

#[test]
fn descriptor_table_has_only_the_keyboard_gate() {
    let table = libkernel::kernel::idt::interrupt_descriptor_table(0x0010_2030);
    for (vector, entry) in table.iter().enumerate() {
        if vector == 33 {
            assert_eq!(0x0010_8e00_0008_2030, entry.bits());
        } else {
            assert_eq!(0, entry.bits());
        }
    }
}

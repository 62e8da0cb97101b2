use libkernel::kernel::mem::pagetable::{
    AccessMode, PageDirectory, PageDirectoryEntry, PageFaultAccess, PageFaultErrorCode,
    PageFaultReason, PageTable, PageTableEntry, PrivilegeLevel,
};

#[test]
fn page_table_entry_bits() {
    let entry = PageTableEntry::new(0x0040_3000, AccessMode::ReadWrite, PrivilegeLevel::User);
    assert_eq!(0x0040_3007, entry.bits());
    let entry = PageTableEntry::new(0x1000, AccessMode::ReadOnly, PrivilegeLevel::Supervisor);
    assert_eq!(0x1001, entry.bits());
}

#[test]
fn page_directory_entry_bits() {
    let entry = PageDirectoryEntry::new(0x0010_0000, AccessMode::ReadWrite, PrivilegeLevel::Supervisor);
    assert_eq!(0x0010_0003, entry.bits());
    let entry = PageDirectoryEntry::new(0, AccessMode::ReadOnly, PrivilegeLevel::User);
    assert_eq!(0x5, entry.bits());
}

#[test]
fn kernel_page_table_is_an_identity_map() {
    let table = PageTable::kernel_page_table();
    for i in 0..1024usize {
        assert_eq!((i as u32) * 4096 + 3, table.entry(i).bits());
    }
}

#[test]
fn empty_page_directory_has_nothing_present() {
    let directory = PageDirectory::empty();
    for i in 0..1024usize {
        assert_eq!(0, directory.entry(i).bits());
    }
}

#[test]
fn page_fault_decoding() {
    let fault = PageFaultErrorCode::new(0, 0xdead_beef);
    assert_eq!(0xdead_b000, fault.address);
    assert_eq!(PageFaultReason::NonPresentPage, fault.reason);
    assert_eq!(PageFaultAccess::Read, fault.access);
    let fault = PageFaultErrorCode::new(0b101, 0x1234);
    assert_eq!(0x1000, fault.address);
    assert_eq!(PageFaultReason::PageLevelProtectionViolation, fault.reason);
    assert_eq!("Insufficient permissions", fault.reason.description());
    assert_eq!("read", fault.access.description());
    assert_eq!("write", PageFaultAccess::Write.description());
    assert_eq!("Page not present", PageFaultReason::NonPresentPage.description());
}
